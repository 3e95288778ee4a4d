use edit_wasm::vfs::{file_exists_in, list_in, read_from, write_to};
use edit_wasm::vfs::{file_name_of_key, list_from_keys, stored_file, vfs_key};

#[test]
fn key_is_prefixed_file_name() {
    assert_eq!(vfs_key("notes.txt"), "vfs:notes.txt");
    assert_eq!(vfs_key(""), "vfs:");
}

#[test]
fn file_name_reads_back_from_key() {
    assert_eq!(file_name_of_key(&vfs_key("notes.txt")).as_deref(), Some("notes.txt"));
    assert_eq!(file_name_of_key("vfs:").as_deref(), Some(""));
    assert_eq!(file_name_of_key("vfs:ü/ß").as_deref(), Some("ü/ß"));
    assert_eq!(file_name_of_key("vf"), None);
    assert_eq!(file_name_of_key("other:notes.txt"), None);
    assert_eq!(file_name_of_key("VFS:notes.txt"), None);
}

#[test]
fn listing_keeps_only_files_and_sorts() {
    let keys = vec![
        Some("vfs:zeta.md".to_string()),
        None,
        Some("theme".to_string()),
        Some("vfs:alpha.txt".to_string()),
        Some("vfs:Beta".to_string()),
        Some("vfs:alpha".to_string()),
    ];
    assert_eq!(list_from_keys(keys), vec!["Beta", "alpha", "alpha.txt", "zeta.md"]);
}

#[test]
fn listing_matches_string_sort() {
    let names = ["é", "e", "z", "ab", "a", "Z", "", "a"];
    let keys: Vec<Option<String>> = names.iter().map(|n| Some(format!("vfs:{n}"))).collect();
    let mut expected: Vec<String> = names.iter().map(|n| n.to_string()).collect();
    expected.sort();
    assert_eq!(list_from_keys(keys), expected);
}

#[test]
fn listing_of_nothing_is_empty() {
    assert!(list_from_keys(Vec::new()).is_empty());
}

#[test]
fn stored_file_passes_value_through() {
    assert_eq!(stored_file(Ok(Some("body".to_string()))).as_deref(), Some("body"));
    assert_eq!(stored_file(Ok(None)), None);
}

#[test]
fn without_storage_nothing_is_found_or_written() {
    assert!(!write_to(None, "a.txt", "text"));
    assert_eq!(read_from(None, "a.txt"), None);
    assert!(!file_exists_in(None, "a.txt"));
    assert!(list_in(None).is_empty());
}
