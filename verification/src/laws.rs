//! Properties that span several steps of the attachment workflows.

use crate::create_flow::{
    create_start, create_transition, create_transition_with, CreateAction, CreateAttachmentFlow,
    CreateEvent, CreateStage,
};
use crate::error::{error_status, AttachmentError};
use crate::ids::{is_random_uuid, uuid_text};
use crate::lookup_flows::{
    delete_transition, fetch_transition, DeleteAttachmentFlow, DeleteStage, FetchAttachmentFlow,
    FetchStage, LookupAction, LookupEvent,
};
use crate::models::{AttachmentModel, DbError};
use crate::notes::{page_limit, page_number};
use crate::schemas::FilterOptions;
use crate::storage::stored_path;
use crate::validation::{file_type_verdict, MAX_FILE_SIZE};
use vstd::prelude::*;

verus! {

/// An upload over the size limit is answered at once with "file too big"
/// (413), before any directory, file or record is touched.
pub proof fn oversized_upload_touches_nothing(
    filename: Seq<char>,
    size: usize,
    stage: CreateStage,
    action: CreateAction,
)
    requires
        size > MAX_FILE_SIZE,
        create_start(filename, size, stage, action),
    ensures
        stage is Finished,
        action == CreateAction::Finish(Err(AttachmentError::FileTooBig(size))),
        error_status(AttachmentError::FileTooBig(size)) == 413,
{
}

/// The file an upload is written to is named by a fresh identifier inside
/// the upload directory, and the record inserted afterwards points at that
/// very file and keeps the original file name.
pub proof fn written_file_is_recorded(
    f0: CreateAttachmentFlow,
    f1: CreateAttachmentFlow,
    a1: CreateAction,
    f2: CreateAttachmentFlow,
    a2: CreateAction,
)
    requires
        f0.stage is AwaitingDir,
        create_transition(f0, CreateEvent::DirReady(Ok(())), f1, a1),
        create_transition(f1, CreateEvent::Written(Ok(())), f2, a2),
    ensures
        a1 matches CreateAction::WriteFile { file_path } && a2 == (CreateAction::InsertRecord {
            note_id: f0.note_id,
            file_path: file_path,
            original_filename: Some(f0.filename),
        }) && exists|id: u128|
            is_random_uuid(id) && file_path@ == stored_path(
                #[trigger] uuid_text(id),
                f0.filename@,
            ),
{
}

/// When recording a written file fails, the file is removed again before
/// the upload is answered, and the answer is that database failure.
pub proof fn failed_insert_removes_file(
    f0: CreateAttachmentFlow,
    failure: DbError,
    f1: CreateAttachmentFlow,
    a1: CreateAction,
    f2: CreateAttachmentFlow,
    a2: CreateAction,
)
    requires
        f0.stage is AwaitingInsert,
        create_transition(f0, CreateEvent::Inserted(Err(failure)), f1, a1),
        create_transition(f1, CreateEvent::Removed, f2, a2),
    ensures
        a1 == (CreateAction::RemoveFile { file_path: f0.stage->AwaitingInsert_file_path }),
        a2 == CreateAction::Finish(Err(AttachmentError::DatabaseError(failure))),
        f2.stage is Finished,
{
}

/// Fetching an attachment whose record is gone answers "not found" (404).
pub proof fn missing_record_fetch_is_not_found(
    f0: FetchAttachmentFlow,
    failure: DbError,
    f1: FetchAttachmentFlow,
    a1: LookupAction,
)
    requires
        f0.stage is AwaitingRecord,
        failure.row_not_found,
        fetch_transition(f0, LookupEvent::Found(Err(failure)), f1, a1),
    ensures
        a1 == LookupAction::FinishFetch(Err(AttachmentError::NotFound)),
        error_status(AttachmentError::NotFound) == 404,
{
}

/// Deleting an attachment whose record is already gone succeeds at once,
/// without touching the database or the disk again: a delete can be
/// repeated without error.
pub proof fn repeated_delete_succeeds(
    f0: DeleteAttachmentFlow,
    failure: DbError,
    f1: DeleteAttachmentFlow,
    a1: LookupAction,
)
    requires
        f0.stage is AwaitingRecord,
        failure.row_not_found,
        delete_transition(f0, LookupEvent::Found(Err(failure)), f1, a1),
    ensures
        a1 == LookupAction::FinishDelete(Ok(())),
        f1.stage is Finished,
{
}

/// A delete removes the record first and the file second, and it succeeds
/// exactly when removing the file succeeds; a failed removal is answered as
/// a storage error (500).
pub proof fn delete_succeeds_only_when_file_is_removed(
    f0: DeleteAttachmentFlow,
    f1: DeleteAttachmentFlow,
    a1: LookupAction,
    removal: Result<(), String>,
    f2: DeleteAttachmentFlow,
    a2: LookupAction,
)
    requires
        f0.stage is AwaitingDelete,
        delete_transition(f0, LookupEvent::Deleted(Ok(())), f1, a1),
        delete_transition(f1, LookupEvent::Removed(removal), f2, a2),
    ensures
        a1 == (LookupAction::RemoveFile { file_path: f0.stage->AwaitingDelete_file_path }),
        (a2 == LookupAction::FinishDelete(Ok(()))) == (removal is Ok),
        removal is Err ==> (a2 matches LookupAction::FinishDelete(Err(e)) && error_status(e) == 500),
{
}

/// Fetch and delete treat a found record alike: the next thing either does
/// is check that its file is on disk.
pub proof fn found_record_is_checked_on_disk(
    g0: FetchAttachmentFlow,
    d0: DeleteAttachmentFlow,
    record: crate::models::AttachmentModel,
    g1: FetchAttachmentFlow,
    ga: LookupAction,
    d1: DeleteAttachmentFlow,
    da: LookupAction,
)
    requires
        g0.stage is AwaitingRecord,
        d0.stage is AwaitingRecord,
        fetch_transition(g0, LookupEvent::Found(Ok(record)), g1, ga),
        delete_transition(d0, LookupEvent::Found(Ok(record)), d1, da),
    ensures
        ga == (LookupAction::CheckFile { file_path: record.file_path }),
        da == ga,
{
}

/// A successful insert is answered with exactly the record the database
/// returned, whichever identifier named the file.
pub proof fn successful_insert_answers_with_record(
    f0: CreateAttachmentFlow,
    record: AttachmentModel,
    fresh_id: u128,
    f1: CreateAttachmentFlow,
    a1: CreateAction,
    g1: CreateAttachmentFlow,
    b1: CreateAction,
)
    requires
        f0.stage is AwaitingInsert,
        create_transition_with(f0, CreateEvent::Inserted(Ok(record)), fresh_id, f1, a1),
        create_transition(f0, CreateEvent::Inserted(Ok(record)), g1, b1),
    ensures
        a1 == CreateAction::Finish(Ok(record)),
        b1 == CreateAction::Finish(Ok(record)),
        f1.stage is Finished,
        g1.stage is Finished,
{
}

/// A fetch that finds its record and then its file on disk answers with
/// that record, unchanged.
pub proof fn fetch_answers_with_found_record(
    f0: FetchAttachmentFlow,
    record: AttachmentModel,
    f1: FetchAttachmentFlow,
    a1: LookupAction,
    f2: FetchAttachmentFlow,
    a2: LookupAction,
)
    requires
        f0.stage is AwaitingRecord,
        fetch_transition(f0, LookupEvent::Found(Ok(record)), f1, a1),
        fetch_transition(f1, LookupEvent::FileExists(true), f2, a2),
    ensures
        a1 == (LookupAction::CheckFile { file_path: record.file_path }),
        a2 == LookupAction::FinishFetch(Ok(record)),
        f2.stage is Finished,
{
}

/// Once the file of the attachment being deleted is known to be on disk,
/// whatever its path, the next thing a delete does is delete the record,
/// keeping the path for the file's removal.
pub proof fn present_file_leads_to_record_deletion(
    f0: DeleteAttachmentFlow,
    file_path: String,
    f1: DeleteAttachmentFlow,
    a1: LookupAction,
)
    requires
        f0.stage == (DeleteStage::AwaitingFileCheck { file_path }),
        delete_transition(f0, LookupEvent::FileExists(true), f1, a1),
    ensures
        a1 == (LookupAction::DeleteRecord { attachment_id: f0.attachment_id }),
        f1.stage == (DeleteStage::AwaitingDelete { file_path }),
        f1.attachment_id == f0.attachment_id,
{
}

/// A delete of a found record succeeds only after asking, in this order, to
/// check its file, delete the record with the requested identifier and
/// remove that same file.
pub proof fn successful_delete_removes_record_and_file(
    f0: DeleteAttachmentFlow,
    record: AttachmentModel,
    f1: DeleteAttachmentFlow,
    a1: LookupAction,
    f2: DeleteAttachmentFlow,
    a2: LookupAction,
    f3: DeleteAttachmentFlow,
    a3: LookupAction,
    f4: DeleteAttachmentFlow,
    a4: LookupAction,
)
    requires
        f0.stage is AwaitingRecord,
        delete_transition(f0, LookupEvent::Found(Ok(record)), f1, a1),
        delete_transition(f1, LookupEvent::FileExists(true), f2, a2),
        delete_transition(f2, LookupEvent::Deleted(Ok(())), f3, a3),
        delete_transition(f3, LookupEvent::Removed(Ok(())), f4, a4),
    ensures
        a1 == (LookupAction::CheckFile { file_path: record.file_path }),
        a2 == (LookupAction::DeleteRecord { attachment_id: f0.attachment_id }),
        a3 == (LookupAction::RemoveFile { file_path: record.file_path }),
        a4 == LookupAction::FinishDelete(Ok(())),
{
}

/// Exactly four lower-case extensions pass the file-type check: `pdf`,
/// `doc`, `docx` and `txt`; any other is refused as an invalid file type.
pub proof fn only_four_file_types_pass(ext: Seq<char>, r: Result<(), crate::error::AttachmentError>)
    requires
        file_type_verdict(ext, r),
    ensures
        r is Ok <==> (ext == seq!['p', 'd', 'f'] || ext == seq!['d', 'o', 'c'] || ext == seq![
            'd',
            'o',
            'c',
            'x',
        ] || ext == seq!['t', 'x', 't']),
        r is Err ==> r matches Err(AttachmentError::InvalidFileType(_)),
{
}

/// A valid upload's first request is to make the `uploads` directory.
pub proof fn valid_upload_first_makes_upload_dir(
    filename: Seq<char>,
    size: usize,
    stage: CreateStage,
    action: CreateAction,
)
    requires
        create_start(filename, size, stage, action),
        !(action is Finish),
    ensures
        action matches CreateAction::EnsureDir { dir } && dir@ == seq![
            'u',
            'p',
            'l',
            'o',
            'a',
            'd',
            's',
        ],
        stage is AwaitingDir,
{
    reveal_strlit("uploads");
}

/// A failure to make the upload directory or to write the file is answered
/// at once as a storage error carrying the failure's own message.
pub proof fn storage_failures_answer_with_their_message(
    f0: CreateAttachmentFlow,
    msg: String,
    fresh_id: u128,
    f1: CreateAttachmentFlow,
    a1: CreateAction,
)
    requires
        (f0.stage is AwaitingDir && create_transition_with(
            f0,
            CreateEvent::DirReady(Err(msg)),
            fresh_id,
            f1,
            a1,
        )) || (f0.stage is AwaitingWrite && create_transition_with(
            f0,
            CreateEvent::Written(Err(msg)),
            fresh_id,
            f1,
            a1,
        )),
    ensures
        a1 == CreateAction::Finish(Err(AttachmentError::StorageError(msg))),
        f1.stage is Finished,
{
}

/// A fetch or delete whose record lookup fails for any reason but a
/// missing row answers with that database failure, unchanged.
pub proof fn lookup_failures_are_database_errors(
    g0: FetchAttachmentFlow,
    d0: DeleteAttachmentFlow,
    failure: DbError,
    g1: FetchAttachmentFlow,
    ga: LookupAction,
    d1: DeleteAttachmentFlow,
    da: LookupAction,
)
    requires
        g0.stage is AwaitingRecord,
        d0.stage is AwaitingRecord,
        !failure.row_not_found,
        fetch_transition(g0, LookupEvent::Found(Err(failure)), g1, ga),
        delete_transition(d0, LookupEvent::Found(Err(failure)), d1, da),
    ensures
        ga == LookupAction::FinishFetch(Err(AttachmentError::DatabaseError(failure))),
        da == LookupAction::FinishDelete(Err(AttachmentError::DatabaseError(failure))),
{
}

/// A fetch or delete whose record's file is missing from disk is answered
/// as a storage error (500) and goes no further.
pub proof fn missing_file_is_a_storage_error(
    g0: FetchAttachmentFlow,
    d0: DeleteAttachmentFlow,
    g1: FetchAttachmentFlow,
    ga: LookupAction,
    d1: DeleteAttachmentFlow,
    da: LookupAction,
)
    requires
        g0.stage is AwaitingFileCheck,
        d0.stage is AwaitingFileCheck,
        fetch_transition(g0, LookupEvent::FileExists(false), g1, ga),
        delete_transition(d0, LookupEvent::FileExists(false), d1, da),
    ensures
        ga matches LookupAction::FinishFetch(Err(e)) && e is StorageError && error_status(e) == 500,
        da matches LookupAction::FinishDelete(Err(e)) && e is StorageError && error_status(e) == 500,
        g1.stage is Finished,
        d1.stage is Finished,
{
}

/// A failed record deletion is answered with that database failure, and
/// the file is left alone.
pub proof fn failed_record_deletion_keeps_the_file(
    f0: DeleteAttachmentFlow,
    failure: DbError,
    f1: DeleteAttachmentFlow,
    a1: LookupAction,
)
    requires
        f0.stage is AwaitingDelete,
        delete_transition(f0, LookupEvent::Deleted(Err(failure)), f1, a1),
    ensures
        a1 == LookupAction::FinishDelete(Err(AttachmentError::DatabaseError(failure))),
        f1.stage is Finished,
{
}

/// The HTTP status of each failure: 413 for a file too big, 400 for a
/// refused type or a missing file, 404 for a missing attachment or note,
/// 500 for storage and database failures.
pub proof fn error_statuses(e: AttachmentError)
    ensures
        e is FileTooBig ==> error_status(e) == 413,
        e is InvalidFileType || e is MissingFile ==> error_status(e) == 400,
        e is NotFound || e is NoteNotFound ==> error_status(e) == 404,
        e is StorageError || e is DatabaseError ==> error_status(e) == 500,
{
}

/// A listing uses the page size and page number it asks for, and 10 notes
/// from the first page where it asks for none.
pub proof fn requested_page_is_used(filters: FilterOptions)
    ensures
        filters.limit matches Some(l) ==> page_limit(filters) == l,
        filters.limit is None ==> page_limit(filters) == 10,
        filters.page matches Some(p) ==> page_number(filters) == p,
        filters.page is None ==> page_number(filters) == 1,
{
}

} // verus!
