use filed::entry::{FileData, FileType};

#[test]
fn new_file_entry_carries_metadata() {
    let e = FileData::new(String::from("/tmp/photo.jpg"), false, 12345, Some(5), Some(6));
    assert_eq!(e.name, String::from("photo.jpg"));
    assert_eq!(e.path, String::from("/tmp/photo.jpg"));
    assert!(!e.is_dir);
    assert_eq!(e.size, Some(12345));
    assert_eq!(e.created, Some(5));
    assert_eq!(e.last_modified, Some(6));
    assert_eq!(e.file_type, Some(FileType::Image));
}

#[test]
fn new_directory_entry_has_no_size() {
    let e = FileData::new(String::from("/tmp/things"), true, 4096, None, None);
    assert_eq!(e.name, String::from("things"));
    assert_eq!(e.size, None);
    assert_eq!(e.file_type, Some(FileType::Directory));
}

#[test]
fn new_entry_classifies_by_extension() {
    let e = FileData::new(String::from("/a/movie.mkv"), false, 1, None, None);
    assert_eq!(e.file_type, Some(FileType::Video));
    let e = FileData::new(String::from("/a/song.flac"), false, 1, None, None);
    assert_eq!(e.file_type, Some(FileType::Audio));
    let e = FileData::new(String::from("/a/paper.pdf"), false, 1, None, None);
    assert_eq!(e.file_type, Some(FileType::Document));
    let e = FileData::new(String::from("/a/notes.txt"), false, 1, None, None);
    assert_eq!(e.file_type, Some(FileType::File));
    let e = FileData::new(String::from("/a/blob.xyz"), false, 1, None, None);
    assert_eq!(e.file_type, Some(FileType::Unknown));
}

#[test]
fn parent_entry_points_one_level_up() {
    let e = FileData::parent("/home/user", "/");
    assert_eq!(e.name, String::from(".."));
    assert_eq!(e.path, String::from("/home"));
    assert!(e.is_dir);
    assert_eq!(e.size, None);
    assert_eq!(e.created, None);
    assert_eq!(e.last_modified, None);
    assert_eq!(e.file_type, Some(FileType::Directory));
}

#[test]
fn parent_entry_at_root_takes_fallback() {
    let e = FileData::parent("/", "/fallback");
    assert_eq!(e.name, String::from(".."));
    assert_eq!(e.path, String::from("/fallback"));
    assert!(e.is_dir);
}
