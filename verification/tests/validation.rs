use plus_notes::error::AttachmentError;
use plus_notes::validation::{check_file_type, validate_file, MAX_FILE_SIZE};

fn refused_message(r: Result<(), AttachmentError>) -> String {
    match r {
        Err(AttachmentError::InvalidFileType(m)) => m,
        _ => panic!("expected an invalid file type"),
    }
}

#[test]
fn allowed_extensions_pass() {
    for ext in ["pdf", "doc", "docx", "txt"] {
        assert!(check_file_type(ext).is_ok(), "{}", ext);
    }
}

#[test]
fn refused_extension_names_itself() {
    assert_eq!(
        refused_message(check_file_type("png")),
        "File type '.png' is not supported. Allowed types are: pdf, doc, docx, txt"
    );
}

#[test]
fn upper_case_extension_is_accepted() {
    assert!(validate_file("Report.PDF", 1024).is_ok());
    assert!(validate_file("notes.TxT", 17).is_ok());
}

#[test]
fn unknown_extension_is_refused() {
    assert_eq!(
        refused_message(validate_file("setup.EXE", 10)),
        "File type '.exe' is not supported. Allowed types are: pdf, doc, docx, txt"
    );
}

#[test]
fn name_without_extension_is_refused() {
    assert_eq!(
        refused_message(validate_file("README", 10)),
        "File type '.' is not supported. Allowed types are: pdf, doc, docx, txt"
    );
    assert_eq!(
        refused_message(validate_file(".txt", 10)),
        "File type '.' is not supported. Allowed types are: pdf, doc, docx, txt"
    );
}

#[test]
fn only_the_last_extension_counts() {
    assert!(validate_file("archive.exe.txt", 10).is_ok());
    assert!(validate_file("letter.txt.exe", 10).is_err());
    assert!(validate_file("docs/minutes.doc", 10).is_ok());
}

#[test]
fn size_limit_is_ten_mebibytes() {
    assert_eq!(MAX_FILE_SIZE, 10_485_760);
    assert!(validate_file("a.pdf", MAX_FILE_SIZE).is_ok());
    match validate_file("a.pdf", MAX_FILE_SIZE + 1) {
        Err(AttachmentError::FileTooBig(n)) => assert_eq!(n, 10_485_761),
        _ => panic!("expected file too big"),
    }
}

#[test]
fn size_is_checked_before_type() {
    match validate_file("movie.mkv", 20_000_000) {
        Err(AttachmentError::FileTooBig(n)) => assert_eq!(n, 20_000_000),
        _ => panic!("expected file too big"),
    }
}
