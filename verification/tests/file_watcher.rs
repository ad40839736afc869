use mosaic_core::file_watcher::{classify, ThrottledPaths, WatchedRoots, THROTTLE_INTERVAL_MS};

fn path(s: &str) -> Vec<String> {
    s.split('/').filter(|c| !c.is_empty()).map(String::from).collect()
}

#[test]
fn throttle_coalesces() {
    let start = 1_000;
    let mut t = ThrottledPaths::new(start);
    t.add(vec![path("a")]);
    let first = t.take_ready(start).unwrap();
    assert_eq!(first, vec![path("a")]);

    t.add(vec![path("b"), path("c")]);
    assert!(t.take_ready(start).is_none());

    let later = start + THROTTLE_INTERVAL_MS;
    let second = t.take_ready(later).unwrap();
    assert_eq!(second, vec![path("b"), path("c")]);
}

#[test]
fn flush_pending_on_shutdown() {
    let start = 1_000;
    let mut t = ThrottledPaths::new(start);
    t.add(vec![path("a")]);
    let _ = t.take_ready(start);
    t.add(vec![path("b")]);
    assert!(t.take_ready(start).is_none());
    let flushed = t.take_pending(start).unwrap();
    assert_eq!(flushed, vec![path("b")]);
}

#[test]
fn pending_paths_are_reported_once_in_path_order() {
    let mut t = ThrottledPaths::new(0);
    t.add(vec![path("a.b"), path("a/b"), path("a/b"), path("a")]);
    assert_eq!(t.next_deadline(0), None);
    assert_eq!(t.take_ready(0).unwrap(), vec![path("a"), path("a/b"), path("a.b")]);
    assert!(t.take_pending(5).is_none());
    t.add(vec![path("z")]);
    assert_eq!(t.next_deadline(5), Some(THROTTLE_INTERVAL_MS));
}

#[test]
fn register_dedupes() {
    let mut roots = WatchedRoots::new();
    assert!(roots.add_root(&path("/tmp/a")));
    assert!(!roots.add_root(&path("/tmp/a")));
    assert!(roots.add_root(&path("/tmp/b")));
    assert_eq!(roots.len(), 2);
    assert_eq!(roots.count(&path("/tmp/a")), 2);
}

#[test]
fn drop_registration_unregisters() {
    let mut roots = WatchedRoots::new();
    roots.add_root(&path("/tmp/x"));
    assert_eq!(roots.len(), 1);
    assert!(roots.unregister_root(&path("/tmp/x")));
    assert_eq!(roots.len(), 0);
    assert!(!roots.unregister_root(&path("/tmp/x")));
}

#[test]
fn register_then_unregister_keeps_other_registrations() {
    let mut roots = WatchedRoots::new();
    roots.add_root(&path("/r"));
    roots.add_root(&path("/r"));
    assert!(!roots.unregister_root(&path("/r")));
    assert_eq!(roots.count(&path("/r")), 1);
}

#[test]
fn classify_keeps_paths_under_roots() {
    let roots = vec![path("/w/repo")];
    let paths = vec![path("/w/repo/src/a.rs"), path("/w/repository/x"), path("/w/repo")];
    assert_eq!(classify(true, &paths, &roots), vec![path("/w/repo/src/a.rs"), path("/w/repo")]);
    assert!(classify(false, &paths, &roots).is_empty());
}
