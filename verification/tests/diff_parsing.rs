//! Parsing `git diff --numstat -p` output.

use orkestra_core::workflow::adapters::diff::{
    determine_change_type, extract_file_path, is_missing_at_head, is_missing_head, parse_diff_output, parse_numstat_line,
    untracked_file_diff, FileChangeType,
};

#[test]
fn numstat_line_parts() {
    assert_eq!(parse_numstat_line("5\t2\tsrc/main.rs"), Some(("src/main.rs".to_string(), 5, 2)));
    assert_eq!(parse_numstat_line("-\t-\timage.png"), None);
    assert_eq!(parse_numstat_line("5\t2"), None);
    assert_eq!(parse_numstat_line("5\t2\ta\tb"), None);
}

#[test]
fn file_path_from_header() {
    assert_eq!(extract_file_path("diff --git a/src/lib.rs b/src/lib.rs"), Some("src/lib.rs".to_string()));
    assert_eq!(extract_file_path("diff --git x/src/lib.rs b/src/lib.rs"), None);
    assert_eq!(extract_file_path("diff --git"), None);
}

#[test]
fn change_type_markers() {
    assert_eq!(determine_change_type(true, false), FileChangeType::Added);
    assert_eq!(determine_change_type(false, true), FileChangeType::Deleted);
    assert_eq!(determine_change_type(false, false), FileChangeType::Modified);
    assert_eq!(determine_change_type(true, true), FileChangeType::Added);
}

#[test]
fn parses_added_modified_deleted_and_binary() {
    let output = "1\t1\tsrc/a.rs\n2\t0\tnew.txt\n0\t3\told.txt\n-\t-\tlogo.png\n\
diff --git a/src/a.rs b/src/a.rs\n\
index 111..222 100644\n\
--- a/src/a.rs\n\
+++ b/src/a.rs\n\
@@ -1 +1 @@\n\
-old\n\
+new\n\
diff --git a/new.txt b/new.txt\n\
new file mode 100644\n\
--- /dev/null\n\
+++ b/new.txt\n\
@@ -0,0 +1,2 @@\n\
+x\n\
+y\n\
diff --git a/old.txt b/old.txt\n\
deleted file mode 100644\n\
--- a/old.txt\n\
+++ /dev/null\n\
diff --git a/logo.png b/logo.png\n\
Binary files a/logo.png and b/logo.png differ\n";
    let diff = parse_diff_output(output);
    assert_eq!(diff.files.len(), 3);
    let a = &diff.files[0];
    assert_eq!(a.path, "src/a.rs");
    assert_eq!(a.change_type, FileChangeType::Modified);
    assert_eq!((a.additions, a.deletions), (1, 1));
    assert!(!a.is_binary);
    assert_eq!(
        a.diff_content.as_deref(),
        Some("diff --git a/src/a.rs b/src/a.rs\nindex 111..222 100644\n--- a/src/a.rs\n+++ b/src/a.rs\n@@ -1 +1 @@\n-old\n+new\n")
    );
    assert_eq!(diff.files[1].change_type, FileChangeType::Added);
    assert_eq!(diff.files[1].additions, 2);
    assert_eq!(diff.files[2].change_type, FileChangeType::Deleted);
    assert_eq!(diff.files[2].deletions, 3);
}

#[test]
fn empty_output_has_no_files() {
    assert!(parse_diff_output("").files.is_empty());
}

#[test]
fn untracked_text_file_is_all_added() {
    let d = untracked_file_diff("notes/todo.md", &b"first\nsecond\n".to_vec());
    assert_eq!(d.change_type, FileChangeType::Added);
    assert_eq!(d.additions, 2);
    assert_eq!(d.deletions, 0);
    assert!(!d.is_binary);
    assert_eq!(
        d.diff_content.as_deref(),
        Some("diff --git a/notes/todo.md b/notes/todo.md\nnew file mode 100644\n--- /dev/null\n+++ b/notes/todo.md\n@@ -0,0 +1,2 @@\n+first\n+second\n")
    );
}

#[test]
fn untracked_invalid_utf8_is_replaced() {
    let d = untracked_file_diff("x.txt", &vec![b'a', 0xff, b'b']);
    assert_eq!(d.additions, 1);
    assert!(d.diff_content.unwrap().ends_with("+a\u{FFFD}b\n"));
}

#[test]
fn untracked_binary_file_has_no_content() {
    let d = untracked_file_diff("bin.dat", &vec![1, 0, 2]);
    assert!(d.is_binary);
    assert_eq!(d.additions, 0);
    assert!(d.diff_content.is_none());
}

#[test]
fn git_stderr_classification() {
    assert!(is_missing_head("fatal: bad revision 'HEAD'"));
    assert!(!is_missing_head("fatal: not a git repository"));
    assert!(is_missing_at_head("fatal: path 'x.rs' does not exist in 'HEAD'"));
    assert!(is_missing_at_head("fatal: path 'y' exists on disk, but not in 'HEAD'"));
    assert!(!is_missing_at_head("fatal: bad object"));
}
