//! Frontmatter of auto-task templates.

use orkestra_core::workflow::config::auto_task::split_frontmatter;

#[test]
fn test_split_frontmatter_valid() {
    let content = "---\ntitle: Hello\n---\nBody here";
    let (fm, body) = split_frontmatter(content).unwrap();
    assert_eq!(fm, "title: Hello");
    assert_eq!(body, "Body here");
}

#[test]
fn test_split_frontmatter_no_delimiters() {
    assert!(split_frontmatter("no frontmatter here").is_none());
}

#[test]
fn test_split_frontmatter_missing_closing() {
    assert!(split_frontmatter("---\ntitle: Hello\nno closing").is_none());
}
