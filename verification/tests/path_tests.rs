use fs_facade::paths::{file_name_of, join_paths};

fn segs(v: &[&str]) -> Vec<String> {
    v.iter().map(|s| s.to_string()).collect()
}

#[test]
fn join_two_segments() {
    assert_eq!(join_paths("/base", &segs(&["a", "b"])), "/base/a/b");
}

#[test]
fn join_no_segments() {
    assert_eq!(join_paths("/base", &segs(&[])), "/base");
}

#[test]
fn join_absolute_segment_replaces_base() {
    assert_eq!(join_paths("/base", &segs(&["/abs", "x"])), "/abs/x");
}

#[test]
fn join_base_with_trailing_separator() {
    assert_eq!(join_paths("/base/", &segs(&["a"])), "/base/a");
}

#[test]
fn join_empty_base() {
    assert_eq!(join_paths("", &segs(&["a", "b"])), "a/b");
}

#[test]
fn join_empty_segment_adds_separator() {
    assert_eq!(join_paths("/base", &segs(&[""])), "/base/");
}

#[test]
fn join_relative_base() {
    assert_eq!(join_paths("base", &segs(&["sub", "f.txt"])), "base/sub/f.txt");
}

#[test]
fn file_name_of_plain_path() {
    assert_eq!(file_name_of("/tmp/a.txt"), "a.txt");
}

#[test]
fn file_name_of_bare_name() {
    assert_eq!(file_name_of("name"), "name");
}

#[test]
fn file_name_of_root() {
    assert_eq!(file_name_of("/"), "");
}

#[test]
fn file_name_of_empty() {
    assert_eq!(file_name_of(""), "");
}

#[test]
fn file_name_of_nested() {
    assert_eq!(file_name_of("a/b/c"), "c");
}
