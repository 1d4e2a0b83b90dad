use fs_facade::tree::{DirectoryEntry, FileMetadata};

#[test]
fn listing_with_one_file_and_one_empty_subdirectory() {
    let file = DirectoryEntry::new_file("a.txt".to_string(), "/d/a.txt".to_string());
    let sub = DirectoryEntry::new_directory("sub".to_string(), "/d/sub".to_string(), Vec::new());
    let root = DirectoryEntry::new_directory("d".to_string(), "/d".to_string(), vec![file, sub]);

    assert!(root.is_directory);
    assert_eq!(root.name, "d");
    assert_eq!(root.child_count(), 2);

    assert_eq!(root.children[0].name, "a.txt");
    assert_eq!(root.children[0].path, "/d/a.txt");
    assert!(!root.children[0].is_directory);
    assert_eq!(root.children[0].children.len(), 0);

    assert_eq!(root.children[1].name, "sub");
    assert!(root.children[1].is_directory);
    assert_eq!(root.children[1].children.len(), 0);
}

#[test]
fn file_entry_has_no_children() {
    let file = DirectoryEntry::new_file("f".to_string(), "/f".to_string());
    assert!(!file.is_directory);
    assert_eq!(file.child_count(), 0);
}

#[test]
fn build_entry_names_the_node_after_its_path() {
    let file = DirectoryEntry::build_entry("/d/a.txt".to_string(), false, Vec::new());
    assert_eq!(file.name, "a.txt");
    assert_eq!(file.path, "/d/a.txt");
    assert!(!file.is_directory);

    let root = DirectoryEntry::build_entry("/d".to_string(), true, vec![file]);
    assert_eq!(root.name, "d");
    assert!(root.is_directory);
    assert_eq!(root.child_count(), 1);
}

#[test]
fn metadata_snapshot_carries_the_reported_fields() {
    let m = FileMetadata::new(true, false, 42);
    assert!(m.is_file);
    assert!(!m.is_dir);
    assert_eq!(m.size_bytes, 42);
}
