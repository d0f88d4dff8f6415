use plus_notes::create_flow::{CreateAction, CreateAttachmentFlow, CreateEvent};
use plus_notes::error::AttachmentError;
use plus_notes::lookup_flows::{DeleteAttachmentFlow, FetchAttachmentFlow, LookupAction, LookupEvent};
use plus_notes::models::{AttachmentModel, DbError};

const NOTE: u128 = 42;

fn record(path: &str) -> AttachmentModel {
    AttachmentModel {
        id: 7,
        note_id: NOTE,
        file_path: path.to_string(),
        original_filename: Some("test.txt".to_string()),
        created_at: 1,
    }
}

fn db(row_not_found: bool) -> DbError {
    DbError { row_not_found, message: "m".to_string(), details: "d".to_string() }
}

fn ready_to_write() -> (CreateAttachmentFlow, String) {
    let (flow, action) = CreateAttachmentFlow::start(NOTE, "test.txt".to_string(), 17);
    assert!(matches!(action, CreateAction::EnsureDir { ref dir } if dir == "uploads"));
    let ev = CreateEvent::DirReady(Ok(()));
    assert!(flow.accepts(&ev));
    let (flow, action) = flow.step(ev);
    match action {
        CreateAction::WriteFile { file_path } => (flow, file_path),
        _ => panic!("expected a write"),
    }
}

#[test]
fn upload_happy_path() {
    let (flow, path) = ready_to_write();
    assert!(path.starts_with("uploads/"));
    assert!(path.ends_with("-test.txt"));
    assert_eq!(path.len(), "uploads/".len() + 36 + "-test.txt".len());
    let (flow, action) = flow.step(CreateEvent::Written(Ok(())));
    match action {
        CreateAction::InsertRecord { note_id, file_path, original_filename } => {
            assert_eq!(note_id, NOTE);
            assert_eq!(file_path, path);
            assert_eq!(original_filename.as_deref(), Some("test.txt"));
        }
        _ => panic!("expected an insert"),
    }
    let (flow, action) = flow.step(CreateEvent::Inserted(Ok(record(&path))));
    assert!(matches!(action, CreateAction::Finish(Ok(ref r)) if r.file_path == path));
    assert!(!flow.accepts(&CreateEvent::Removed));
}

#[test]
fn upload_paths_are_fresh() {
    let (_, a) = ready_to_write();
    let (_, b) = ready_to_write();
    assert_ne!(a, b);
}

#[test]
fn invalid_upload_is_answered_at_once() {
    let (flow, action) = CreateAttachmentFlow::start(NOTE, "virus.exe".to_string(), 10);
    assert!(matches!(action, CreateAction::Finish(Err(AttachmentError::InvalidFileType(_)))));
    assert!(!flow.accepts(&CreateEvent::DirReady(Ok(()))));
    let (_, action) = CreateAttachmentFlow::start(NOTE, "big.pdf".to_string(), 10_485_761);
    assert!(matches!(action, CreateAction::Finish(Err(AttachmentError::FileTooBig(10_485_761)))));
}

#[test]
fn upload_directory_failure() {
    let (flow, _) = CreateAttachmentFlow::start(NOTE, "a.txt".to_string(), 1);
    let (_, action) = flow.step(CreateEvent::DirReady(Err("denied".to_string())));
    assert!(matches!(action, CreateAction::Finish(Err(AttachmentError::StorageError(ref m))) if m == "denied"));
}

#[test]
fn write_failure() {
    let (flow, _) = ready_to_write();
    let (_, action) = flow.step(CreateEvent::Written(Err("disk full".to_string())));
    assert!(matches!(action, CreateAction::Finish(Err(AttachmentError::StorageError(ref m))) if m == "disk full"));
}

#[test]
fn failed_insert_removes_the_file() {
    let (flow, path) = ready_to_write();
    let (flow, _) = flow.step(CreateEvent::Written(Ok(())));
    let (flow, action) = flow.step(CreateEvent::Inserted(Err(db(false))));
    assert!(matches!(action, CreateAction::RemoveFile { ref file_path } if *file_path == path));
    assert!(flow.accepts(&CreateEvent::Removed));
    let (_, action) = flow.step(CreateEvent::Removed);
    assert!(matches!(action, CreateAction::Finish(Err(AttachmentError::DatabaseError(ref e))) if e.details == "d"));
}

#[test]
fn fetch_paths() {
    let (flow, action) = FetchAttachmentFlow::start(7);
    assert!(matches!(action, LookupAction::FetchRecord { attachment_id: 7 }));
    let (flow, action) = flow.step(LookupEvent::Found(Ok(record("uploads/a-test.txt"))));
    assert!(matches!(action, LookupAction::CheckFile { ref file_path } if file_path == "uploads/a-test.txt"));
    let (_, action) = flow.step(LookupEvent::FileExists(true));
    assert!(matches!(action, LookupAction::FinishFetch(Ok(ref r)) if r.id == 7));

    let (flow, _) = FetchAttachmentFlow::start(7);
    let (flow, _) = flow.step(LookupEvent::Found(Ok(record("p"))));
    let (_, action) = flow.step(LookupEvent::FileExists(false));
    assert!(matches!(action, LookupAction::FinishFetch(Err(AttachmentError::StorageError(ref m))) if m == "File exists in database but not on disk"));
}

#[test]
fn fetch_after_delete_is_not_found() {
    let (flow, _) = FetchAttachmentFlow::start(7);
    let ev = LookupEvent::Found(Err(db(true)));
    assert!(flow.accepts(&ev));
    let (_, action) = flow.step(ev);
    match action {
        LookupAction::FinishFetch(Err(e)) => assert_eq!(e.status_and_message().0, 404),
        _ => panic!("expected not found"),
    }
    let (flow, _) = FetchAttachmentFlow::start(7);
    let (_, action) = flow.step(LookupEvent::Found(Err(db(false))));
    assert!(matches!(action, LookupAction::FinishFetch(Err(AttachmentError::DatabaseError(_)))));
}

#[test]
fn delete_happy_path() {
    let (flow, _) = DeleteAttachmentFlow::start(7);
    let (flow, action) = flow.step(LookupEvent::Found(Ok(record("uploads/a-test.txt"))));
    assert!(matches!(action, LookupAction::CheckFile { .. }));
    let (flow, action) = flow.step(LookupEvent::FileExists(true));
    assert!(matches!(action, LookupAction::DeleteRecord { attachment_id: 7 }));
    let (flow, action) = flow.step(LookupEvent::Deleted(Ok(())));
    assert!(matches!(action, LookupAction::RemoveFile { ref file_path } if file_path == "uploads/a-test.txt"));
    let (flow, action) = flow.step(LookupEvent::Removed(Ok(())));
    assert!(matches!(action, LookupAction::FinishDelete(Ok(()))));
    assert!(!flow.accepts(&LookupEvent::FileExists(true)));
}

#[test]
fn failed_file_removal_fails_the_delete() {
    let (flow, _) = DeleteAttachmentFlow::start(7);
    let (flow, _) = flow.step(LookupEvent::Found(Ok(record("p"))));
    let (flow, _) = flow.step(LookupEvent::FileExists(true));
    let (flow, _) = flow.step(LookupEvent::Deleted(Ok(())));
    let (_, action) = flow.step(LookupEvent::Removed(Err("busy".to_string())));
    match action {
        LookupAction::FinishDelete(Err(e)) => {
            assert_eq!(e.status_and_message().0, 500);
            assert_eq!(e.describe(), "Storage error: Failed to delete file: busy");
        }
        _ => panic!("expected a storage error"),
    }
}

#[test]
fn repeated_delete_succeeds() {
    let (flow, _) = DeleteAttachmentFlow::start(7);
    let (flow, action) = flow.step(LookupEvent::Found(Err(db(true))));
    assert!(matches!(action, LookupAction::FinishDelete(Ok(()))));
    assert!(!flow.accepts(&LookupEvent::FileExists(true)));
}

#[test]
fn delete_failures() {
    let (flow, _) = DeleteAttachmentFlow::start(7);
    let (_, action) = flow.step(LookupEvent::Found(Err(db(false))));
    assert!(matches!(action, LookupAction::FinishDelete(Err(AttachmentError::DatabaseError(_)))));

    let (flow, _) = DeleteAttachmentFlow::start(7);
    let (flow, _) = flow.step(LookupEvent::Found(Ok(record("p"))));
    let (_, action) = flow.step(LookupEvent::FileExists(false));
    assert!(matches!(action, LookupAction::FinishDelete(Err(AttachmentError::StorageError(ref m))) if m == "File not found on disk"));

    let (flow, _) = DeleteAttachmentFlow::start(7);
    let (flow, _) = flow.step(LookupEvent::Found(Ok(record("p"))));
    let (flow, _) = flow.step(LookupEvent::FileExists(true));
    let (_, action) = flow.step(LookupEvent::Deleted(Err(db(true))));
    assert!(matches!(action, LookupAction::FinishDelete(Err(AttachmentError::DatabaseError(_)))));
}

#[test]
fn stored_names_carry_a_version_four_uuid() {
    let (_, path) = ready_to_write();
    let id = &path["uploads/".len().."uploads/".len() + 36];
    let bytes = id.as_bytes();
    for (i, b) in bytes.iter().enumerate() {
        if i == 8 || i == 13 || i == 18 || i == 23 {
            assert_eq!(*b, b'-');
        } else {
            assert!(b.is_ascii_digit() || (b'a'..=b'f').contains(b));
        }
    }
    assert_eq!(bytes[14], b'4');
    assert!(matches!(bytes[19], b'8' | b'9' | b'a' | b'b'));
}

#[test]
fn stored_name_uses_the_given_identifier() {
    let (flow, _) = CreateAttachmentFlow::start(NOTE, "test.txt".to_string(), 17);
    let (flow, action) = flow.step_with_id(CreateEvent::DirReady(Ok(())), 0x67e5504410b1426f9247bb680e5fe0c8);
    assert!(matches!(action, CreateAction::WriteFile { ref file_path }
        if file_path == "uploads/67e55044-10b1-426f-9247-bb680e5fe0c8-test.txt"));
    let (_, action) = flow.step_with_id(CreateEvent::Written(Ok(())), 0);
    assert!(matches!(action, CreateAction::InsertRecord { ref file_path, .. }
        if file_path == "uploads/67e55044-10b1-426f-9247-bb680e5fe0c8-test.txt"));
}
