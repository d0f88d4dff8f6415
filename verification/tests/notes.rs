use plus_notes::notes::{insert_values, normalize_tags, page_window};
use plus_notes::schemas::{CreateNoteSchema, FilterOptions};

fn filters(limit: Option<usize>, page: Option<usize>) -> FilterOptions {
    FilterOptions { limit, page, tags: Vec::new() }
}

#[test]
fn default_window_is_first_ten() {
    assert_eq!(page_window(&FilterOptions::default()), (10, 0));
}

#[test]
fn windows_follow_pages() {
    assert_eq!(page_window(&filters(Some(5), Some(3))), (5, 10));
    assert_eq!(page_window(&filters(Some(5), Some(4))), (5, 15));
    assert_eq!(page_window(&filters(None, Some(2))), (10, 10));
    assert_eq!(page_window(&filters(Some(25), None)), (25, 0));
    assert_eq!(page_window(&filters(Some(0), Some(9))), (0, 0));
}

#[test]
fn tags_are_lowercased_in_order() {
    let tags = vec!["Rust".to_string(), "WEB".to_string(), "db".to_string()];
    assert_eq!(normalize_tags(tags), vec!["rust", "web", "db"]);
    assert!(normalize_tags(Vec::new()).is_empty());
}

#[test]
fn unstated_published_is_false() {
    let v = insert_values(CreateNoteSchema {
        title: "Test Note".to_string(),
        content: "Test Content".to_string(),
        category: Some("testing".to_string()),
        published: None,
        tags: vec!["tag1".to_string(), "tag2".to_string()],
    });
    assert_eq!(v.title, "Test Note");
    assert_eq!(v.content, "Test Content");
    assert_eq!(v.category.as_deref(), Some("testing"));
    assert!(!v.published);
    assert_eq!(v.tags, vec!["tag1", "tag2"]);
    let w = insert_values(CreateNoteSchema {
        title: "t".to_string(),
        content: "c".to_string(),
        category: None,
        published: Some(true),
        tags: Vec::new(),
    });
    assert!(w.published);
    assert!(w.category.is_none());
}
