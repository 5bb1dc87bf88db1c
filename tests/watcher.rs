use run_splitter::watcher::ChangeWatcher;

#[test]
fn first_sample_has_no_previous() {
    let mut w: ChangeWatcher<bool> = ChangeWatcher::new();
    let o = w.update(Some(true)).unwrap();
    assert_eq!(o.previous, None);
    assert!(o.current);
    assert!(!w.changed());
    assert!(!w.changed_to(&true));
}

#[test]
fn failed_read_leaves_watcher_unchanged() {
    let mut w: ChangeWatcher<bool> = ChangeWatcher::new();
    assert!(w.update(None).is_none());
    assert!(w.pair.is_none());
    w.update(Some(false));
    w.update(Some(true));
    assert!(w.update(None).is_none());
    let o = w.pair.unwrap();
    assert_eq!(o.previous, Some(false));
    assert!(o.current);
    assert!(w.changed_to(&true));
}

#[test]
fn changed_to_needs_change_and_value() {
    let mut w: ChangeWatcher<bool> = ChangeWatcher::new();
    w.update(Some(false));
    w.update(Some(true));
    assert!(w.changed());
    assert!(w.changed_to(&true));
    assert!(!w.changed_to(&false));
    w.update(Some(true));
    assert!(!w.changed());
    assert!(!w.changed_to(&true));
    assert_eq!(w.current(), Some(true));
}
