use recording::watcher::{ChunkWatcher, ManifestEntry, POLL_INTERVAL_SECS};

fn entry(name: &str, on_disk: bool) -> ManifestEntry {
    ManifestEntry { name: name.to_string(), on_disk }
}

fn strings(items: &[&str]) -> Vec<String> {
    items.iter().map(|s| s.to_string()).collect()
}

#[test]
fn poll_interval_is_three_seconds() {
    assert_eq!(POLL_INTERVAL_SECS, 3);
}

#[test]
fn new_watcher_polls_and_has_seen_nothing() {
    let watcher = ChunkWatcher::new();
    assert!(watcher.is_polling());
    assert_eq!(watcher.seen_count(), 0);
    assert!(!watcher.has_seen(&"a.mkv".to_string()));
}

#[test]
fn each_chunk_is_dispatched_once_over_growing_manifests() {
    let mut watcher = ChunkWatcher::new();
    let first = watcher.poll(&vec![entry("a.mkv", true)]);
    assert_eq!(first, strings(&["a.mkv"]));
    let second = watcher.poll(&vec![entry("a.mkv", true), entry("b.mkv", true)]);
    assert_eq!(second, strings(&["b.mkv"]));
    let third = watcher.poll(&vec![entry("a.mkv", true), entry("b.mkv", true), entry("c.mkv", true)]);
    assert_eq!(third, strings(&["c.mkv"]));
    let fourth = watcher.poll(&vec![entry("a.mkv", true), entry("b.mkv", true), entry("c.mkv", true)]);
    assert_eq!(fourth, Vec::<String>::new());
    assert_eq!(watcher.seen_count(), 3);
}

#[test]
fn a_chunk_not_yet_on_disk_waits_for_a_later_poll() {
    let mut watcher = ChunkWatcher::new();
    let first = watcher.poll(&vec![entry("a.mkv", false), entry("b.mkv", true)]);
    assert_eq!(first, strings(&["b.mkv"]));
    assert!(!watcher.has_seen(&"a.mkv".to_string()));
    let second = watcher.poll(&vec![entry("a.mkv", true), entry("b.mkv", true)]);
    assert_eq!(second, strings(&["a.mkv"]));
    assert!(watcher.has_seen(&"a.mkv".to_string()));
}

#[test]
fn a_name_listed_twice_in_one_poll_is_dispatched_once() {
    let mut watcher = ChunkWatcher::new();
    let sent = watcher.poll(&vec![entry("a.mkv", true), entry("b.mkv", true), entry("a.mkv", true)]);
    assert_eq!(sent, strings(&["a.mkv", "b.mkv"]));
}

#[test]
fn dispatch_follows_manifest_order() {
    let mut watcher = ChunkWatcher::new();
    let sent = watcher.poll(&vec![entry("c.mkv", true), entry("a.mkv", true), entry("b.mkv", true)]);
    assert_eq!(sent, strings(&["c.mkv", "a.mkv", "b.mkv"]));
}

#[test]
fn observe_decides_entry_by_entry() {
    let mut watcher = ChunkWatcher::new();
    assert!(!watcher.observe(&"a.mkv".to_string(), false));
    assert!(watcher.observe(&"a.mkv".to_string(), true));
    assert!(!watcher.observe(&"a.mkv".to_string(), true));
    assert_eq!(watcher.seen_count(), 1);
}

#[test]
fn only_the_shutdown_flag_stops_the_watcher() {
    let mut watcher = ChunkWatcher::new();
    assert!(watcher.begin_tick(false));
    assert!(watcher.is_polling());
    assert!(!watcher.begin_tick(true));
    assert!(!watcher.is_polling());
    assert!(!watcher.begin_tick(false));
}

#[test]
fn a_stopped_watcher_dispatches_nothing() {
    let mut watcher = ChunkWatcher::new();
    watcher.poll(&vec![entry("a.mkv", true)]);
    watcher.begin_tick(true);
    let sent = watcher.poll(&vec![entry("a.mkv", true), entry("b.mkv", true)]);
    assert_eq!(sent, Vec::<String>::new());
    assert!(!watcher.observe(&"c.mkv".to_string(), true));
    assert_eq!(watcher.seen_count(), 1);
}
