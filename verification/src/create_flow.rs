//! The decisions of storing an upload: validate it, make sure the upload
//! directory exists, write the file under a fresh name, record it, and
//! remove the file again if recording it fails.
//!
//! The caller performs each action and reports its outcome as the next
//! event; `step` answers with the next action until one is `Finish`.

use crate::error::AttachmentError;
use crate::ids::{is_random_uuid, new_random_id, uuid_text, uuid_to_string};
use crate::models::{AttachmentModel, DbError};
use crate::storage::{stored_file_path, stored_path};
use crate::validation::{file_type_verdict, normalized_extension, validate_file, MAX_FILE_SIZE};
use vstd::prelude::*;

verus! {

/// Where a store-upload run stands.
pub enum CreateStage {
    /// Waiting for the upload directory to be made.
    AwaitingDir,
    /// Waiting for the file to be written at this path.
    AwaitingWrite { file_path: String },
    /// Waiting for the record of the file at this path to be inserted.
    AwaitingInsert { file_path: String },
    /// Waiting for the written file to be removed after this database failure.
    AwaitingCleanup { failure: DbError },
    /// The run has answered.
    Finished,
}

/// A run of storing one upload for one note.
pub struct CreateAttachmentFlow {
    pub note_id: u128,
    pub filename: String,
    pub stage: CreateStage,
}

/// What the caller reports back after performing an action.
pub enum CreateEvent {
    /// The upload directory was made (or its making failed, with a message).
    DirReady(Result<(), String>),
    /// The file was written (or writing failed, with a message).
    Written(Result<(), String>),
    /// The record was inserted (or the database failed).
    Inserted(Result<AttachmentModel, DbError>),
    /// The file removal was attempted; its outcome does not matter.
    Removed,
}

/// What the caller is asked to do next.
pub enum CreateAction {
    /// Make this directory and any missing parents.
    EnsureDir { dir: String },
    /// Write the upload's bytes to this path.
    WriteFile { file_path: String },
    /// Insert an attachment record.
    InsertRecord { note_id: u128, file_path: String, original_filename: Option<String> },
    /// Remove the file at this path.
    RemoveFile { file_path: String },
    /// Answer the request.
    Finish(Result<AttachmentModel, AttachmentError>),
}

/// What validating an upload of this name and size yields.
pub open spec fn upload_check(filename: Seq<char>, size: usize, r: Result<(), AttachmentError>) -> bool {
    &&& size > MAX_FILE_SIZE ==> r == Err::<(), AttachmentError>(AttachmentError::FileTooBig(size))
    &&& size <= MAX_FILE_SIZE ==> file_type_verdict(normalized_extension(filename), r)
}

/// The first action of a run, and the stage it leaves the run in.
pub open spec fn create_start(
    filename: Seq<char>,
    size: usize,
    stage: CreateStage,
    action: CreateAction,
) -> bool {
    match action {
        CreateAction::Finish(Err(e)) => stage is Finished && upload_check(filename, size, Err(e)),
        CreateAction::EnsureDir { dir } => {
            &&& stage is AwaitingDir
            &&& dir@ == "uploads"@
            &&& upload_check(filename, size, Ok(()))
        },
        _ => false,
    }
}

/// Whether an event answers the action a run is waiting on.
pub open spec fn create_accepts(stage: CreateStage, event: CreateEvent) -> bool {
    match stage {
        CreateStage::AwaitingDir => event is DirReady,
        CreateStage::AwaitingWrite { .. } => event is Written,
        CreateStage::AwaitingInsert { .. } => event is Inserted,
        CreateStage::AwaitingCleanup { .. } => event is Removed,
        CreateStage::Finished => false,
    }
}

/// One step of a run: from `before`, on `event`, to `after` with `action`,
/// where a stored file is named by the identifier `fresh_id`.
pub open spec fn create_transition_with(
    before: CreateAttachmentFlow,
    event: CreateEvent,
    fresh_id: u128,
    after: CreateAttachmentFlow,
    action: CreateAction,
) -> bool {
    &&& after.note_id == before.note_id
    &&& after.filename == before.filename
    &&& match (before.stage, event) {
        (CreateStage::AwaitingDir, CreateEvent::DirReady(Err(msg))) => {
            &&& after.stage is Finished
            &&& action == CreateAction::Finish(Err(AttachmentError::StorageError(msg)))
        },
        (CreateStage::AwaitingDir, CreateEvent::DirReady(Ok(()))) => {
            &&& action matches CreateAction::WriteFile { file_path }
            &&& after.stage == CreateStage::AwaitingWrite { file_path: file_path }
            &&& file_path@ == stored_path(uuid_text(fresh_id), before.filename@)
        },
        (CreateStage::AwaitingWrite { .. }, CreateEvent::Written(Err(msg))) => {
            &&& after.stage is Finished
            &&& action == CreateAction::Finish(Err(AttachmentError::StorageError(msg)))
        },
        (CreateStage::AwaitingWrite { file_path }, CreateEvent::Written(Ok(()))) => {
            &&& after.stage == CreateStage::AwaitingInsert { file_path: file_path }
            &&& action == CreateAction::InsertRecord {
                note_id: before.note_id,
                file_path: file_path,
                original_filename: Some(before.filename),
            }
        },
        (CreateStage::AwaitingInsert { .. }, CreateEvent::Inserted(Ok(record))) => {
            &&& after.stage is Finished
            &&& action == CreateAction::Finish(Ok(record))
        },
        (CreateStage::AwaitingInsert { file_path }, CreateEvent::Inserted(Err(failure))) => {
            &&& after.stage == CreateStage::AwaitingCleanup { failure: failure }
            &&& action == CreateAction::RemoveFile { file_path: file_path }
        },
        (CreateStage::AwaitingCleanup { failure }, CreateEvent::Removed) => {
            &&& after.stage is Finished
            &&& action == CreateAction::Finish(Err(AttachmentError::DatabaseError(failure)))
        },
        _ => false,
    }
}

/// One step of a run: from `before`, on `event`, to `after` with `action`,
/// where a stored file is named by some random (version 4) identifier.
pub open spec fn create_transition(
    before: CreateAttachmentFlow,
    event: CreateEvent,
    after: CreateAttachmentFlow,
    action: CreateAction,
) -> bool {
    &&& after.note_id == before.note_id
    &&& after.filename == before.filename
    &&& match (before.stage, event) {
        (CreateStage::AwaitingDir, CreateEvent::DirReady(Err(msg))) => {
            &&& after.stage is Finished
            &&& action == CreateAction::Finish(Err(AttachmentError::StorageError(msg)))
        },
        (CreateStage::AwaitingDir, CreateEvent::DirReady(Ok(()))) => {
            &&& action matches CreateAction::WriteFile { file_path }
            &&& after.stage == CreateStage::AwaitingWrite { file_path: file_path }
            &&& exists|id: u128|
                is_random_uuid(id) && file_path@ == stored_path(
                    #[trigger] uuid_text(id),
                    before.filename@,
                )
        },
        (CreateStage::AwaitingWrite { .. }, CreateEvent::Written(Err(msg))) => {
            &&& after.stage is Finished
            &&& action == CreateAction::Finish(Err(AttachmentError::StorageError(msg)))
        },
        (CreateStage::AwaitingWrite { file_path }, CreateEvent::Written(Ok(()))) => {
            &&& after.stage == CreateStage::AwaitingInsert { file_path: file_path }
            &&& action == CreateAction::InsertRecord {
                note_id: before.note_id,
                file_path: file_path,
                original_filename: Some(before.filename),
            }
        },
        (CreateStage::AwaitingInsert { .. }, CreateEvent::Inserted(Ok(record))) => {
            &&& after.stage is Finished
            &&& action == CreateAction::Finish(Ok(record))
        },
        (CreateStage::AwaitingInsert { file_path }, CreateEvent::Inserted(Err(failure))) => {
            &&& after.stage == CreateStage::AwaitingCleanup { failure: failure }
            &&& action == CreateAction::RemoveFile { file_path: file_path }
        },
        (CreateStage::AwaitingCleanup { failure }, CreateEvent::Removed) => {
            &&& after.stage is Finished
            &&& action == CreateAction::Finish(Err(AttachmentError::DatabaseError(failure)))
        },
        _ => false,
    }
}

impl CreateAttachmentFlow {
    /// Starts storing an upload of `size` bytes named `filename` for a note:
    /// an upload that fails validation is answered at once, with nothing
    /// written; a valid one first asks for the upload directory.
    pub fn start(note_id: u128, filename: String, size: usize) -> (r: (
        CreateAttachmentFlow,
        CreateAction,
    ))
        ensures
            r.0.note_id == note_id,
            r.0.filename == filename,
            create_start(filename@, size, r.0.stage, r.1),
    {
        match validate_file(filename.as_str(), size) {
            Err(e) => (
                CreateAttachmentFlow { note_id, filename, stage: CreateStage::Finished },
                CreateAction::Finish(Err(e)),
            ),
            Ok(()) => (
                CreateAttachmentFlow { note_id, filename, stage: CreateStage::AwaitingDir },
                CreateAction::EnsureDir { dir: String::from_str("uploads") },
            ),
        }
    }

    /// Whether `event` answers the action this run is waiting on.
    pub fn accepts(&self, event: &CreateEvent) -> (r: bool)
        ensures
            r == create_accepts(self.stage, *event),
    {
        match (&self.stage, event) {
            (CreateStage::AwaitingDir, CreateEvent::DirReady(_)) => true,
            (CreateStage::AwaitingWrite { .. }, CreateEvent::Written(_)) => true,
            (CreateStage::AwaitingInsert { .. }, CreateEvent::Inserted(_)) => true,
            (CreateStage::AwaitingCleanup { .. }, CreateEvent::Removed) => true,
            _ => false,
        }
    }

    /// Advances the run by the outcome of the action it was waiting on,
    /// drawing a fresh random identifier for the file's name in case the
    /// step asks for the file to be written.
    pub fn step(self, event: CreateEvent) -> (r: (CreateAttachmentFlow, CreateAction))
        requires
            create_accepts(self.stage, event),
        ensures
            create_transition(self, event, r.0, r.1),
            exists|id: u128| is_random_uuid(id) && #[trigger] create_transition_with(self, event, id, r.0, r.1),
    {
        let id = new_random_id();
        let r = self.step_with_id(event, id);
        proof {
            assert(create_transition_with(self, event, id, r.0, r.1));
        }
        r
    }

    /// Advances the run by the outcome of the action it was waiting on; a
    /// file to be written is named by `fresh_id`.
    pub fn step_with_id(self, event: CreateEvent, fresh_id: u128) -> (r: (
        CreateAttachmentFlow,
        CreateAction,
    ))
        requires
            create_accepts(self.stage, event),
        ensures
            create_transition_with(self, event, fresh_id, r.0, r.1),
    {
        let CreateAttachmentFlow { note_id, filename, stage } = self;
        match stage {
            CreateStage::AwaitingDir => match event {
                CreateEvent::DirReady(Err(msg)) => (
                    CreateAttachmentFlow { note_id, filename, stage: CreateStage::Finished },
                    CreateAction::Finish(Err(AttachmentError::StorageError(msg))),
                ),
                CreateEvent::DirReady(Ok(())) => {
                    let id_text = uuid_to_string(fresh_id);
                    let file_path = stored_file_path(id_text.as_str(), filename.as_str());
                    let kept = file_path.clone();
                    (
                        CreateAttachmentFlow {
                            note_id,
                            filename,
                            stage: CreateStage::AwaitingWrite { file_path: kept },
                        },
                        CreateAction::WriteFile { file_path },
                    )
                },
                _ => {
                    proof { assert(false); }
                    (
                        CreateAttachmentFlow { note_id, filename, stage: CreateStage::Finished },
                        CreateAction::Finish(Err(AttachmentError::NotFound)),
                    )
                },
            },
            CreateStage::AwaitingWrite { file_path } => match event {
                CreateEvent::Written(Err(msg)) => (
                    CreateAttachmentFlow { note_id, filename, stage: CreateStage::Finished },
                    CreateAction::Finish(Err(AttachmentError::StorageError(msg))),
                ),
                CreateEvent::Written(Ok(())) => {
                    let kept = file_path.clone();
                    let original = filename.clone();
                    (
                        CreateAttachmentFlow {
                            note_id,
                            filename,
                            stage: CreateStage::AwaitingInsert { file_path: kept },
                        },
                        CreateAction::InsertRecord {
                            note_id,
                            file_path,
                            original_filename: Some(original),
                        },
                    )
                },
                _ => {
                    proof { assert(false); }
                    (
                        CreateAttachmentFlow { note_id, filename, stage: CreateStage::Finished },
                        CreateAction::Finish(Err(AttachmentError::NotFound)),
                    )
                },
            },
            CreateStage::AwaitingInsert { file_path } => match event {
                CreateEvent::Inserted(Ok(record)) => (
                    CreateAttachmentFlow { note_id, filename, stage: CreateStage::Finished },
                    CreateAction::Finish(Ok(record)),
                ),
                CreateEvent::Inserted(Err(failure)) => (
                    CreateAttachmentFlow {
                        note_id,
                        filename,
                        stage: CreateStage::AwaitingCleanup { failure },
                    },
                    CreateAction::RemoveFile { file_path },
                ),
                _ => {
                    proof { assert(false); }
                    (
                        CreateAttachmentFlow { note_id, filename, stage: CreateStage::Finished },
                        CreateAction::Finish(Err(AttachmentError::NotFound)),
                    )
                },
            },
            CreateStage::AwaitingCleanup { failure } => (
                CreateAttachmentFlow { note_id, filename, stage: CreateStage::Finished },
                CreateAction::Finish(Err(AttachmentError::DatabaseError(failure))),
            ),
            CreateStage::Finished => {
                proof { assert(false); }
                (
                    CreateAttachmentFlow { note_id, filename, stage: CreateStage::Finished },
                    CreateAction::Finish(Err(AttachmentError::NotFound)),
                )
            },
        }
    }
}

} // verus!
