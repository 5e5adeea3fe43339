use filed::paths::{extension_of, file_name_of, parent_of, parent_or_fallback};

#[test]
fn parent_of_nested_path() {
    assert_eq!(parent_of("/home/user/docs"), Some(String::from("/home/user")));
}

#[test]
fn parent_of_root_is_none() {
    assert_eq!(parent_of("/"), None);
}

#[test]
fn parent_of_top_level_is_root() {
    assert_eq!(parent_of("/a"), Some(String::from("/")));
}

#[test]
fn parent_of_bare_name_is_none() {
    assert_eq!(parent_of("name"), None);
}

#[test]
fn parent_of_empty_is_none() {
    assert_eq!(parent_of(""), None);
}

#[test]
fn parent_of_ignores_trailing_separator() {
    assert_eq!(parent_of("/a/b/"), Some(String::from("/a")));
}

#[test]
fn parent_or_fallback_at_root_uses_fallback() {
    assert_eq!(parent_or_fallback("/", "C:\\"), String::from("C:\\"));
}

#[test]
fn parent_or_fallback_elsewhere_is_parent() {
    assert_eq!(parent_or_fallback("/a/b", "C:\\"), String::from("/a"));
}

#[test]
fn file_name_of_nested_path() {
    assert_eq!(file_name_of("/a/b.txt"), String::from("b.txt"));
}

#[test]
fn file_name_of_root_is_empty() {
    assert_eq!(file_name_of("/"), String::from(""));
}

#[test]
fn file_name_of_trailing_separator() {
    assert_eq!(file_name_of("/a/b/"), String::from("b"));
}

#[test]
fn file_name_of_bare_name() {
    assert_eq!(file_name_of("notes"), String::from("notes"));
}

#[test]
fn extension_of_takes_last_dot() {
    assert_eq!(extension_of("archive.tar.gz"), String::from("gz"));
}

#[test]
fn extension_of_hidden_file_is_empty() {
    assert_eq!(extension_of(".bashrc"), String::from(""));
}

#[test]
fn extension_of_dotless_name_is_empty() {
    assert_eq!(extension_of("README"), String::from(""));
}

#[test]
fn extension_of_trailing_dot_is_empty() {
    assert_eq!(extension_of("a."), String::from(""));
}
