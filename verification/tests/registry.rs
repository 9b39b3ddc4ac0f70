use shellcore::registry::Registry;

#[test]
fn empty_registry() {
    let r = Registry::new();
    assert_eq!(r.len(), 0);
    assert!(r.is_empty());
    assert!(!r.contains(1));
    assert_eq!(r.get_title(1), None);
}

#[test]
fn insert_and_lookup() {
    let mut r = Registry::new();
    r.insert(1, "Window 1".to_string());
    assert_eq!(r.len(), 1);
    assert!(!r.is_empty());
    assert!(r.contains(1));
    assert_eq!(r.get_title(1), Some("Window 1".to_string()));
    assert_eq!(r.get_title(2), None);
}

#[test]
fn insert_same_identity_replaces() {
    let mut r = Registry::new();
    r.insert(1, "first".to_string());
    r.insert(1, "second".to_string());
    assert_eq!(r.len(), 1);
    assert_eq!(r.get_title(1), Some("second".to_string()));
}

#[test]
fn remove_reports_presence() {
    let mut r = Registry::new();
    r.insert(1, "Window 1".to_string());
    r.insert(2, "Window 2".to_string());
    assert!(r.remove(1));
    assert_eq!(r.len(), 1);
    assert!(!r.contains(1));
    assert!(r.contains(2));
    assert!(!r.remove(1));
    assert_eq!(r.len(), 1);
}

#[test]
fn set_title_renames_live_window() {
    let mut r = Registry::new();
    r.insert(1, "Window 1".to_string());
    assert!(r.set_title(1, "renamed".to_string()));
    assert_eq!(r.get_title(1), Some("renamed".to_string()));
    assert_eq!(r.len(), 1);
}

#[test]
fn set_title_of_absent_window_is_noop() {
    let mut r = Registry::new();
    r.insert(1, "Window 1".to_string());
    assert!(!r.set_title(2, "ghost".to_string()));
    assert_eq!(r.len(), 1);
    assert_eq!(r.get_title(1), Some("Window 1".to_string()));
    assert_eq!(r.get_title(2), None);
}

#[test]
fn no_duplicate_identities_after_transitions() {
    let mut r = Registry::new();
    r.insert(1, "a".to_string());
    r.insert(2, "b".to_string());
    r.insert(1, "c".to_string());
    r.remove(2);
    r.insert(2, "d".to_string());
    r.insert(2, "e".to_string());
    assert_eq!(r.len(), 2);
    assert_eq!(r.get_title(1), Some("c".to_string()));
    assert_eq!(r.get_title(2), Some("e".to_string()));
}
