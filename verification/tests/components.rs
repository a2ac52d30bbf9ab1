use whats_cooking::header::Header;
use whats_cooking::modal::{Modal, Msg};
use whats_cooking::task::TaskSlot;

#[test]
fn header_highlights_the_active_route() {
    let h = Header::create(String::from("/ingredients"));
    assert!(h.is_active("ingredients"));
    assert!(!h.is_active("recipes"));
}

#[test]
fn header_resyncs_after_navigation() {
    let mut h = Header::create(String::from("/ingredients"));
    h.re_sync(String::from("/recipes"));
    assert!(h.is_active("recipes"));
    assert!(!h.is_active("ingredients"));
    assert_eq!(h.current_location, "/recipes");
}

#[test]
fn modal_close_toggles_visibility() {
    let mut m = Modal::create(String::from("Delete?"), String::from("This cannot be undone."));
    assert!(m.is_open);
    let render = m.update(Msg::Close);
    assert!(render);
    assert!(!m.is_open);
    let _ = m.update(Msg::Close);
    assert!(m.is_open);
    assert_eq!(m.title, "Delete?");
    assert_eq!(m.description, "This cannot be undone.");
}

#[test]
fn task_slot_issues_fresh_handles() {
    let mut s = TaskSlot::new();
    assert!(s.current.is_none());
    let h0 = s.start();
    assert_eq!(h0, 0);
    assert!(s.accepts(0));
    // a new start supersedes the old handle
    let h1 = s.start();
    assert_eq!(h1, 1);
    assert!(!s.accepts(0));
    assert!(s.accepts(1));
    s.clear();
    assert!(!s.accepts(1));
    // handles are never reused
    let h2 = s.start();
    assert_eq!(h2, 2);
}
