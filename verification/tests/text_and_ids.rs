use plus_notes::error::AttachmentError;
use plus_notes::models::DbError;
use plus_notes::notes::normalize_tags;
use plus_notes::replies::{note_fetched_reply, ReplyBody};
use plus_notes::storage::{content_disposition, stored_file_path};
use plus_notes::text::push_decimal;
use plus_notes::validation::validate_file;

fn refusal(name: &str) -> String {
    match validate_file(name, 1) {
        Err(AttachmentError::InvalidFileType(m)) => m,
        Ok(()) => "accepted".to_string(),
        _ => panic!("unexpected error"),
    }
}

fn missing_note_text(id: u128) -> String {
    let db = DbError { row_not_found: true, message: String::new(), details: String::new() };
    match note_fetched_reply(id, Err(db)).body {
        ReplyBody::Message { message, .. } => message,
        _ => panic!("expected a message"),
    }
}

#[test]
fn decimal_rendering() {
    for (n, text) in [(0usize, "0"), (7, "7"), (10, "10"), (12345, "12345"), (10_485_761, "10485761")] {
        let mut out = String::from("n=");
        push_decimal(&mut out, n);
        assert_eq!(out, format!("n={}", text));
    }
    let mut out = String::new();
    push_decimal(&mut out, usize::MAX);
    assert_eq!(out, usize::MAX.to_string());
}

#[test]
fn lowercasing() {
    let tags = vec!["PDF".to_string(), "MiXeD.Txt".to_string(), "ÄÖ".to_string(), String::new()];
    assert_eq!(normalize_tags(tags), vec!["pdf", "mixed.txt", "äö", ""]);
}

#[test]
fn extensions() {
    assert_eq!(refusal("a/b.tar.gz"), "File type '.gz' is not supported. Allowed types are: pdf, doc, docx, txt");
    assert_eq!(refusal("report.PDF"), "accepted");
    assert_eq!(refusal("noext"), "File type '.' is not supported. Allowed types are: pdf, doc, docx, txt");
    assert_eq!(refusal(".bashrc"), "File type '.' is not supported. Allowed types are: pdf, doc, docx, txt");
    assert_eq!(refusal("trailing."), "File type '.' is not supported. Allowed types are: pdf, doc, docx, txt");
    assert_eq!(refusal("photo.JPEG"), "File type '.jpeg' is not supported. Allowed types are: pdf, doc, docx, txt");
}

#[test]
fn uuid_text_is_hyphenated_lower_hex() {
    assert_eq!(
        missing_note_text(0x67e5504410b1426f9247bb680e5fe0c8),
        "Note with ID: 67e55044-10b1-426f-9247-bb680e5fe0c8 not found"
    );
    assert_eq!(
        missing_note_text(0xABCDEF),
        "Note with ID: 00000000-0000-0000-0000-000000abcdef not found"
    );
}

#[test]
fn stored_paths() {
    assert_eq!(
        stored_file_path("67e55044-10b1-426f-9247-bb680e5fe0c8", "test.txt"),
        "uploads/67e55044-10b1-426f-9247-bb680e5fe0c8-test.txt"
    );
}

#[test]
fn download_names() {
    assert_eq!(content_disposition(&None), "attachment; filename=\"download\"");
    assert_eq!(
        content_disposition(&Some("test.txt".to_string())),
        "attachment; filename=\"test.txt\""
    );
}
