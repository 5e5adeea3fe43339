use filed::address::AddressMode;
use filed::entry::FileData;
use filed::explorer::{Explorer, Intent, PathStatus};
use filed::listing::LoadError;

fn dir_entry(path: &str) -> FileData {
    FileData::new(String::from(path), true, 0, None, None)
}

fn file_entry(path: &str) -> FileData {
    FileData::new(String::from(path), false, 1, None, None)
}

fn fresh(start: &str) -> Explorer {
    let (e, eff) = Explorer::new(String::from(start), String::from("/"));
    let request = eff.load.expect("the start directory should be loaded");
    assert_eq!(request.path, String::from(start));
    assert_eq!(request.generation, 0);
    e
}

#[test]
fn opening_a_directory_navigates_and_requests_a_stamped_load() {
    let mut e = fresh("/home");
    let eff = e.open(&dir_entry("/home/docs"));
    assert_eq!(e.current_path, String::from("/home/docs"));
    assert!(e.can_go_back());
    let request = eff.load.expect("a load should be requested");
    assert_eq!(request.path, String::from("/home/docs"));
    assert_eq!(request.generation, 1);
    assert!(eff.scroll_to_top);
}

#[test]
fn opening_a_file_or_the_current_directory_does_nothing() {
    let mut e = fresh("/home");
    let eff = e.open(&file_entry("/home/notes.txt"));
    assert_eq!(e.current_path, String::from("/home"));
    assert!(eff.load.is_none());
    assert!(!eff.scroll_to_top);
    let eff = e.open(&dir_entry("/home"));
    assert_eq!(e.current_path, String::from("/home"));
    assert!(eff.load.is_none());
}

#[test]
fn opens_then_equal_backs_return_to_the_start() {
    let mut e = fresh("/start");
    e.open(&dir_entry("/start/a"));
    e.open(&dir_entry("/start/a/b"));
    e.open(&dir_entry("/start/a/b/c"));
    e.navigate_history(false);
    e.navigate_history(false);
    e.navigate_history(false);
    assert_eq!(e.current_path, String::from("/start"));
    assert!(!e.can_go_back());
}

#[test]
fn late_stale_result_cannot_overwrite_a_newer_one() {
    let mut e = fresh("/home");
    let eff_a = e.open(&dir_entry("/home/a"));
    let gen_a = eff_a.load.unwrap().generation;
    let eff_b = e.open(&dir_entry("/home/b"));
    let gen_b = eff_b.load.unwrap().generation;
    let listing_b = vec![file_entry("/home/b/kept.txt")];
    e.apply_load_result(Ok(listing_b), gen_b);
    let listing_a = vec![file_entry("/home/a/stale.txt")];
    e.apply_load_result(Ok(listing_a), gen_a);
    let tree = e.tree.as_ref().expect("the newer listing should be visible");
    assert_eq!(tree.len(), 1);
    assert_eq!(tree[0].name, String::from("kept.txt"));
}

#[test]
fn back_at_the_oldest_entry_changes_nothing() {
    let mut e = fresh("/home");
    e.apply_load_result(Ok(vec![file_entry("/home/a.txt")]), 0);
    let eff = e.navigate_history(false);
    assert_eq!(e.current_path, String::from("/home"));
    assert!(!e.can_go_back());
    assert!(eff.load.is_none());
    assert!(!eff.scroll_to_top);
    let tree = e.tree.as_ref().unwrap();
    assert_eq!(tree[0].name, String::from("a.txt"));
}

#[test]
fn forward_at_the_newest_entry_changes_nothing() {
    let mut e = fresh("/home");
    let eff = e.navigate_history(true);
    assert_eq!(e.current_path, String::from("/home"));
    assert!(eff.load.is_none());
}

#[test]
fn committing_an_empty_draft_reverts_quietly() {
    let mut e = fresh("/home");
    e.activate_address();
    e.type_address(String::from(""));
    let eff = e.commit_address(PathStatus::Missing);
    assert_eq!(e.current_path, String::from("/home"));
    assert_eq!(e.address.mode, AddressMode::Display);
    assert!(eff.load.is_none());
    assert!(eff.unfocus_address);
}

#[test]
fn committing_a_missing_path_reverts_without_a_load() {
    let mut e = fresh("/home");
    e.activate_address();
    e.type_address(String::from("/no/such/place"));
    let eff = e.commit_address(PathStatus::Missing);
    assert_eq!(e.current_path, String::from("/home"));
    assert_eq!(e.address.mode, AddressMode::Display);
    assert!(eff.load.is_none());
    assert!(!eff.scroll_to_top);
}

#[test]
fn committing_a_file_path_does_not_navigate() {
    let mut e = fresh("/home");
    e.activate_address();
    e.type_address(String::from("/home/notes.txt"));
    let eff = e.commit_address(PathStatus::FoundFile);
    assert_eq!(e.current_path, String::from("/home"));
    assert_eq!(e.address.mode, AddressMode::Display);
    assert!(eff.load.is_none());
}

#[test]
fn committing_a_directory_navigates_like_open() {
    let mut e = fresh("/home");
    e.activate_address();
    assert_eq!(e.address.mode, AddressMode::Editing);
    assert_eq!(e.address.draft, String::from("/home"));
    e.type_address(String::from("/srv/data"));
    let eff = e.commit_address(PathStatus::FoundDirectory);
    assert_eq!(e.current_path, String::from("/srv/data"));
    assert_eq!(e.address.mode, AddressMode::Display);
    assert!(e.can_go_back());
    let request = eff.load.expect("a load should be requested");
    assert_eq!(request.path, String::from("/srv/data"));
    assert_eq!(request.generation, 1);
    assert!(eff.scroll_to_top);
    assert!(eff.unfocus_address);
}

#[test]
fn opening_the_synthetic_parent_at_a_root_takes_the_fallback() {
    let (mut e, _) = Explorer::new(String::from("/"), String::from("/fallback"));
    let parent_row = FileData::parent("/", "/fallback");
    let eff = e.open(&parent_row);
    assert_eq!(e.current_path, String::from("/fallback"));
    assert!(eff.load.is_some());
}

#[test]
fn opening_the_synthetic_parent_goes_one_level_up() {
    let mut e = fresh("/home/user");
    let parent_row = FileData::parent("/home/user", "/");
    e.open(&parent_row);
    assert_eq!(e.current_path, String::from("/home"));
}

#[test]
fn a_failed_load_shows_an_empty_tree_with_the_error_flag() {
    let mut e = fresh("/home");
    e.apply_load_result(Err(LoadError::Inaccessible), 0);
    assert!(e.load_error);
    assert_eq!(e.tree.as_ref().unwrap().len(), 0);
}

#[test]
fn selecting_highlights_and_leaves_the_address_field() {
    let mut e = fresh("/home");
    e.activate_address();
    let eff = e.select(&file_entry("/home/a.txt"));
    assert_eq!(e.highlighted_file, Some(String::from("a.txt")));
    assert_eq!(e.address.mode, AddressMode::Display);
    assert!(eff.load.is_none());
}

#[test]
fn cancelling_discards_the_draft() {
    let mut e = fresh("/home");
    e.activate_address();
    e.type_address(String::from("/somewhere/else"));
    let eff = e.cancel_address();
    assert_eq!(e.address.mode, AddressMode::Display);
    assert_eq!(e.address.draft, String::from(""));
    assert_eq!(e.current_path, String::from("/home"));
    assert!(eff.load.is_none());
}

#[test]
fn visible_rows_start_with_the_synthetic_parent() {
    let mut e = fresh("/home/user");
    let rows = e.visible_rows();
    assert_eq!(rows.len(), 1);
    assert_eq!(rows[0].name, String::from(".."));
    assert_eq!(rows[0].path, String::from("/home"));
    e.apply_load_result(Ok(vec![dir_entry("/home/user/docs"), file_entry("/home/user/a.txt")]), 0);
    let rows = e.visible_rows();
    assert_eq!(rows.len(), 3);
    assert_eq!(rows[0].name, String::from(".."));
    assert_eq!(rows[1].name, String::from("docs"));
    assert_eq!(rows[2].name, String::from("a.txt"));
}

#[test]
fn update_dispatches_the_intents() {
    let mut e = fresh("/home");
    let eff = e.update(Intent::Open(dir_entry("/home/docs")));
    assert_eq!(e.current_path, String::from("/home/docs"));
    assert_eq!(eff.load.as_ref().unwrap().generation, 1);
    e.update(Intent::LoadCompleted(Ok(vec![file_entry("/home/docs/x.txt")]), 1));
    assert_eq!(e.tree.as_ref().unwrap().len(), 1);
    e.update(Intent::HistoryBack);
    assert_eq!(e.current_path, String::from("/home"));
    e.update(Intent::HistoryForward);
    assert_eq!(e.current_path, String::from("/home/docs"));
    e.update(Intent::AddressActivate);
    assert_eq!(e.address.mode, AddressMode::Editing);
    e.update(Intent::AddressType(String::from("/tmp")));
    assert_eq!(e.address.draft, String::from("/tmp"));
    e.update(Intent::AddressCancel);
    assert_eq!(e.address.mode, AddressMode::Display);
    e.update(Intent::Select(file_entry("/home/docs/x.txt")));
    assert_eq!(e.highlighted_file, Some(String::from("x.txt")));
    let eff = e.update(Intent::AddressCommit(PathStatus::Missing));
    assert!(eff.load.is_none());
}

#[test]
fn title_names_the_current_path() {
    let e = fresh("/home/user");
    assert_eq!(e.title(), String::from("Filed - /home/user"));
}

#[test]
fn history_availability_follows_the_cursor() {
    let mut e = fresh("/a");
    assert!(!e.can_go_back());
    assert!(!e.can_go_forward());
    e.open(&dir_entry("/a/b"));
    assert!(e.can_go_back());
    assert!(!e.can_go_forward());
    e.navigate_history(false);
    assert!(!e.can_go_back());
    assert!(e.can_go_forward());
}
