//! The decisions of fetching and of deleting one stored attachment.
//!
//! Both look the record up first. For a fetch a missing record means the
//! attachment does not exist; a delete of a missing record has nothing to
//! do and succeeds, so repeating a delete is harmless. Both then insist
//! that the record's file is still on disk. A delete removes the record and
//! then the file, and succeeds only once both are gone.

use crate::error::{lookup_failure, AttachmentError};
use crate::models::{AttachmentModel, DbError};
use vstd::prelude::*;

verus! {

/// The error a failed record lookup is answered with.
pub open spec fn lookup_error(db: DbError) -> AttachmentError {
    if db.row_not_found {
        AttachmentError::NotFound
    } else {
        AttachmentError::DatabaseError(db)
    }
}

/// Where a fetch run stands.
pub enum FetchStage {
    /// Waiting for the record.
    AwaitingRecord,
    /// Waiting to learn whether this record's file is on disk.
    AwaitingFileCheck { record: AttachmentModel },
    /// The run has answered.
    Finished,
}

/// Where a delete run stands.
pub enum DeleteStage {
    /// Waiting for the record.
    AwaitingRecord,
    /// Waiting to learn whether the file at this path is on disk.
    AwaitingFileCheck { file_path: String },
    /// Waiting for the record to be deleted; the file is at this path.
    AwaitingDelete { file_path: String },
    /// Waiting for the file to be removed.
    AwaitingRemoval,
    /// The run has answered.
    Finished,
}

/// A run of fetching one attachment.
pub struct FetchAttachmentFlow {
    pub attachment_id: u128,
    pub stage: FetchStage,
}

/// A run of deleting one attachment.
pub struct DeleteAttachmentFlow {
    pub attachment_id: u128,
    pub stage: DeleteStage,
}

/// What the caller reports back after performing an action.
pub enum LookupEvent {
    /// The record lookup returned this.
    Found(Result<AttachmentModel, DbError>),
    /// The file is (or is not) on disk.
    FileExists(bool),
    /// The record deletion returned this.
    Deleted(Result<(), DbError>),
    /// The file removal returned this (a message on failure).
    Removed(Result<(), String>),
}

/// What the caller is asked to do next.
pub enum LookupAction {
    /// Fetch the record with this identifier.
    FetchRecord { attachment_id: u128 },
    /// Find out whether a file exists at this path.
    CheckFile { file_path: String },
    /// Delete the record with this identifier.
    DeleteRecord { attachment_id: u128 },
    /// Remove the file at this path.
    RemoveFile { file_path: String },
    /// Answer a fetch.
    FinishFetch(Result<AttachmentModel, AttachmentError>),
    /// Answer a delete.
    FinishDelete(Result<(), AttachmentError>),
}

/// Whether an event answers the action a fetch run is waiting on.
pub open spec fn fetch_accepts(stage: FetchStage, event: LookupEvent) -> bool {
    match stage {
        FetchStage::AwaitingRecord => event is Found,
        FetchStage::AwaitingFileCheck { .. } => event is FileExists,
        FetchStage::Finished => false,
    }
}

/// Whether an event answers the action a delete run is waiting on.
pub open spec fn delete_accepts(stage: DeleteStage, event: LookupEvent) -> bool {
    match stage {
        DeleteStage::AwaitingRecord => event is Found,
        DeleteStage::AwaitingFileCheck { .. } => event is FileExists,
        DeleteStage::AwaitingDelete { .. } => event is Deleted,
        DeleteStage::AwaitingRemoval => event is Removed,
        DeleteStage::Finished => false,
    }
}

/// The text a fetch answers with when the record's file is gone.
pub open spec fn fetch_missing_file_text() -> Seq<char> {
    "File exists in database but not on disk"@
}

/// The text a delete answers with when the record's file is gone.
pub open spec fn delete_missing_file_text() -> Seq<char> {
    "File not found on disk"@
}

/// The text a delete answers with when the file could not be removed.
pub open spec fn removal_failed_text(reason: Seq<char>) -> Seq<char> {
    "Failed to delete file: "@ + reason
}

/// One step of a fetch run.
pub open spec fn fetch_transition(
    before: FetchAttachmentFlow,
    event: LookupEvent,
    after: FetchAttachmentFlow,
    action: LookupAction,
) -> bool {
    &&& after.attachment_id == before.attachment_id
    &&& match (before.stage, event) {
        (FetchStage::AwaitingRecord, LookupEvent::Found(Err(db))) => {
            &&& after.stage is Finished
            &&& action == LookupAction::FinishFetch(Err(lookup_error(db)))
        },
        (FetchStage::AwaitingRecord, LookupEvent::Found(Ok(record))) => {
            &&& after.stage == FetchStage::AwaitingFileCheck { record: record }
            &&& action == LookupAction::CheckFile { file_path: record.file_path }
        },
        (FetchStage::AwaitingFileCheck { record }, LookupEvent::FileExists(true)) => {
            &&& after.stage is Finished
            &&& action == LookupAction::FinishFetch(Ok(record))
        },
        (FetchStage::AwaitingFileCheck { .. }, LookupEvent::FileExists(false)) => {
            &&& after.stage is Finished
            &&& action matches LookupAction::FinishFetch(Err(AttachmentError::StorageError(m)))
            &&& m@ == fetch_missing_file_text()
        },
        _ => false,
    }
}

/// One step of a delete run.
pub open spec fn delete_transition(
    before: DeleteAttachmentFlow,
    event: LookupEvent,
    after: DeleteAttachmentFlow,
    action: LookupAction,
) -> bool {
    &&& after.attachment_id == before.attachment_id
    &&& match (before.stage, event) {
        (DeleteStage::AwaitingRecord, LookupEvent::Found(Err(db))) => {
            &&& after.stage is Finished
            &&& action == if db.row_not_found {
                LookupAction::FinishDelete(Ok(()))
            } else {
                LookupAction::FinishDelete(Err(AttachmentError::DatabaseError(db)))
            }
        },
        (DeleteStage::AwaitingRecord, LookupEvent::Found(Ok(record))) => {
            &&& after.stage == DeleteStage::AwaitingFileCheck { file_path: record.file_path }
            &&& action == LookupAction::CheckFile { file_path: record.file_path }
        },
        (DeleteStage::AwaitingFileCheck { .. }, LookupEvent::FileExists(false)) => {
            &&& after.stage is Finished
            &&& action matches LookupAction::FinishDelete(Err(AttachmentError::StorageError(m)))
            &&& m@ == delete_missing_file_text()
        },
        (DeleteStage::AwaitingFileCheck { file_path }, LookupEvent::FileExists(true)) => {
            &&& after.stage == DeleteStage::AwaitingDelete { file_path: file_path }
            &&& action == LookupAction::DeleteRecord { attachment_id: before.attachment_id }
        },
        (DeleteStage::AwaitingDelete { .. }, LookupEvent::Deleted(Err(db))) => {
            &&& after.stage is Finished
            &&& action == LookupAction::FinishDelete(Err(AttachmentError::DatabaseError(db)))
        },
        (DeleteStage::AwaitingDelete { file_path }, LookupEvent::Deleted(Ok(()))) => {
            &&& after.stage is AwaitingRemoval
            &&& action == LookupAction::RemoveFile { file_path: file_path }
        },
        (DeleteStage::AwaitingRemoval, LookupEvent::Removed(Ok(()))) => {
            &&& after.stage is Finished
            &&& action == LookupAction::FinishDelete(Ok(()))
        },
        (DeleteStage::AwaitingRemoval, LookupEvent::Removed(Err(reason))) => {
            &&& after.stage is Finished
            &&& action matches LookupAction::FinishDelete(Err(AttachmentError::StorageError(m)))
            &&& m@ == removal_failed_text(reason@)
        },
        _ => false,
    }
}

impl FetchAttachmentFlow {
    /// Starts fetching an attachment: the record is looked up first.
    pub fn start(attachment_id: u128) -> (r: (FetchAttachmentFlow, LookupAction))
        ensures
            r.0.attachment_id == attachment_id,
            (r.0.stage is AwaitingRecord),
            r.1 == (LookupAction::FetchRecord { attachment_id }),
    {
        (
            FetchAttachmentFlow { attachment_id, stage: FetchStage::AwaitingRecord },
            LookupAction::FetchRecord { attachment_id },
        )
    }

    /// Whether `event` answers the action this run is waiting on.
    pub fn accepts(&self, event: &LookupEvent) -> (r: bool)
        ensures
            r == fetch_accepts(self.stage, *event),
    {
        match (&self.stage, event) {
            (FetchStage::AwaitingRecord, LookupEvent::Found(_)) => true,
            (FetchStage::AwaitingFileCheck { .. }, LookupEvent::FileExists(_)) => true,
            _ => false,
        }
    }

    /// Advances the run by the outcome of the action it was waiting on.
    pub fn step(self, event: LookupEvent) -> (r: (FetchAttachmentFlow, LookupAction))
        requires
            fetch_accepts(self.stage, event),
        ensures
            fetch_transition(self, event, r.0, r.1),
    {
        let attachment_id = self.attachment_id;
        let finished = FetchAttachmentFlow { attachment_id, stage: FetchStage::Finished };
        match self.stage {
            FetchStage::AwaitingRecord => match event {
                LookupEvent::Found(Err(db)) => (
                    finished,
                    LookupAction::FinishFetch(Err(lookup_failure(db))),
                ),
                LookupEvent::Found(Ok(record)) => {
                    let file_path = record.file_path.clone();
                    (
                        FetchAttachmentFlow {
                            attachment_id,
                            stage: FetchStage::AwaitingFileCheck { record },
                        },
                        LookupAction::CheckFile { file_path },
                    )
                },
                _ => {
                    proof { assert(false); }
                    (finished, LookupAction::FinishFetch(Err(AttachmentError::NotFound)))
                },
            },
            FetchStage::AwaitingFileCheck { record } => match event {
                LookupEvent::FileExists(true) => (finished, LookupAction::FinishFetch(Ok(record))),
                LookupEvent::FileExists(false) => (
                    finished,
                    LookupAction::FinishFetch(
                        Err(
                            AttachmentError::StorageError(
                                String::from_str("File exists in database but not on disk"),
                            ),
                        ),
                    ),
                ),
                _ => {
                    proof { assert(false); }
                    (finished, LookupAction::FinishFetch(Err(AttachmentError::NotFound)))
                },
            },
            FetchStage::Finished => {
                proof { assert(false); }
                (finished, LookupAction::FinishFetch(Err(AttachmentError::NotFound)))
            },
        }
    }
}

impl DeleteAttachmentFlow {
    /// Starts deleting an attachment: the record is looked up first.
    pub fn start(attachment_id: u128) -> (r: (DeleteAttachmentFlow, LookupAction))
        ensures
            r.0.attachment_id == attachment_id,
            (r.0.stage is AwaitingRecord),
            r.1 == (LookupAction::FetchRecord { attachment_id }),
    {
        (
            DeleteAttachmentFlow { attachment_id, stage: DeleteStage::AwaitingRecord },
            LookupAction::FetchRecord { attachment_id },
        )
    }

    /// Whether `event` answers the action this run is waiting on.
    pub fn accepts(&self, event: &LookupEvent) -> (r: bool)
        ensures
            r == delete_accepts(self.stage, *event),
    {
        match (&self.stage, event) {
            (DeleteStage::AwaitingRecord, LookupEvent::Found(_)) => true,
            (DeleteStage::AwaitingFileCheck { .. }, LookupEvent::FileExists(_)) => true,
            (DeleteStage::AwaitingDelete { .. }, LookupEvent::Deleted(_)) => true,
            (DeleteStage::AwaitingRemoval, LookupEvent::Removed(_)) => true,
            _ => false,
        }
    }

    /// Advances the run by the outcome of the action it was waiting on.
    pub fn step(self, event: LookupEvent) -> (r: (DeleteAttachmentFlow, LookupAction))
        requires
            delete_accepts(self.stage, event),
        ensures
            delete_transition(self, event, r.0, r.1),
    {
        let attachment_id = self.attachment_id;
        let finished = DeleteAttachmentFlow { attachment_id, stage: DeleteStage::Finished };
        match self.stage {
            DeleteStage::AwaitingRecord => match event {
                LookupEvent::Found(Err(db)) => if db.row_not_found {
                    (finished, LookupAction::FinishDelete(Ok(())))
                } else {
                    (finished, LookupAction::FinishDelete(Err(AttachmentError::DatabaseError(db))))
                },
                LookupEvent::Found(Ok(record)) => {
                    let file_path = record.file_path.clone();
                    (
                        DeleteAttachmentFlow {
                            attachment_id,
                            stage: DeleteStage::AwaitingFileCheck { file_path: record.file_path },
                        },
                        LookupAction::CheckFile { file_path },
                    )
                },
                _ => {
                    proof { assert(false); }
                    (finished, LookupAction::FinishDelete(Err(AttachmentError::NotFound)))
                },
            },
            DeleteStage::AwaitingFileCheck { file_path } => match event {
                LookupEvent::FileExists(false) => (
                    finished,
                    LookupAction::FinishDelete(
                        Err(AttachmentError::StorageError(String::from_str("File not found on disk"))),
                    ),
                ),
                LookupEvent::FileExists(true) => (
                    DeleteAttachmentFlow {
                        attachment_id,
                        stage: DeleteStage::AwaitingDelete { file_path },
                    },
                    LookupAction::DeleteRecord { attachment_id },
                ),
                _ => {
                    proof { assert(false); }
                    (finished, LookupAction::FinishDelete(Err(AttachmentError::NotFound)))
                },
            },
            DeleteStage::AwaitingDelete { file_path } => match event {
                LookupEvent::Deleted(Err(db)) => (
                    finished,
                    LookupAction::FinishDelete(Err(AttachmentError::DatabaseError(db))),
                ),
                LookupEvent::Deleted(Ok(())) => (
                    DeleteAttachmentFlow { attachment_id, stage: DeleteStage::AwaitingRemoval },
                    LookupAction::RemoveFile { file_path },
                ),
                _ => {
                    proof { assert(false); }
                    (finished, LookupAction::FinishDelete(Err(AttachmentError::NotFound)))
                },
            },
            DeleteStage::AwaitingRemoval => match event {
                LookupEvent::Removed(Ok(())) => (finished, LookupAction::FinishDelete(Ok(()))),
                LookupEvent::Removed(Err(reason)) => {
                    let mut text = String::from_str("Failed to delete file: ");
                    text.append(reason.as_str());
                    (finished, LookupAction::FinishDelete(Err(AttachmentError::StorageError(text))))
                },
                _ => {
                    proof { assert(false); }
                    (finished, LookupAction::FinishDelete(Err(AttachmentError::NotFound)))
                },
            },
            DeleteStage::Finished => {
                proof { assert(false); }
                (finished, LookupAction::FinishDelete(Err(AttachmentError::NotFound)))
            },
        }
    }
}

} // verus!
