use filed::history::HistoryStack;

#[test]
fn fresh_log_sits_on_the_start() {
    let h = HistoryStack::new(String::from("/start"));
    assert!(!h.can_go_back());
    assert!(!h.can_go_forward());
    assert_eq!(h.current(), &String::from("/start"));
}

#[test]
fn back_and_forward_move_only_the_cursor() {
    let mut h = HistoryStack::new(String::from("/a"));
    h.visit(String::from("/b"));
    h.visit(String::from("/c"));
    assert_eq!(h.back(), Some(String::from("/b")));
    assert_eq!(h.back(), Some(String::from("/a")));
    assert_eq!(h.back(), None);
    assert_eq!(h.forward(), Some(String::from("/b")));
    assert_eq!(h.forward(), Some(String::from("/c")));
    assert_eq!(h.forward(), None);
}

#[test]
fn visit_discards_the_forward_tail() {
    let mut h = HistoryStack::new(String::from("/a"));
    h.visit(String::from("/b"));
    h.visit(String::from("/c"));
    h.back();
    h.back();
    assert_eq!(h.current(), &String::from("/a"));
    h.visit(String::from("/d"));
    assert!(!h.can_go_forward());
    assert_eq!(h.forward(), None);
    assert_eq!(h.back(), Some(String::from("/a")));
    assert_eq!(h.forward(), Some(String::from("/d")));
}
