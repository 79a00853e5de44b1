use pfs::dir_view::{DirView, Folder};
use pfs::entry::DirectoryEntry;
use pfs::thumbnails::{ThumbnailBatcher, THUMBNAIL_DEBOUNCE_MS};

fn entry(n: u32, has_thumbnail: bool) -> DirectoryEntry {
    DirectoryEntry::new(
        format!("f{n}.png"),
        format!("f{n}.png"),
        "image/png".to_string(),
        None,
        10,
        format!("file:///pics/f{n}.png"),
        has_thumbnail,
    )
}

fn sorted(mut v: Vec<String>) -> Vec<String> {
    v.sort();
    v
}

#[test]
fn burst_of_five_sends_one_batch() {
    let mut view = DirView::new();
    let mut last = 0;
    for n in 0..5u32 {
        let now = 200 * n as u64;
        let due = view.on_item_bind(&entry(n, false), n as u64, now);
        assert_eq!(due, Some(now + THUMBNAIL_DEBOUNCE_MS));
        last = now;
    }
    let mut batches = Vec::new();
    let mut t = 0;
    while t <= 3000 {
        if let Some(keys) = view.poll_thumbnails(t) {
            batches.push((t, keys));
        }
        t += 100;
    }
    assert_eq!(batches.len(), 1);
    let (when, keys) = &batches[0];
    assert!(*when >= last + 800 && *when < last + 1000 + 100);
    let expected: Vec<String> = (0..5u32).map(|n| format!("file:///pics/f{n}.png")).collect();
    assert_eq!(sorted(keys.clone()), expected);
}

#[test]
fn observe_within_window_defers_flush() {
    let mut b = ThumbnailBatcher::new();
    b.observe(&"a".to_string(), 1, false, 0);
    assert_eq!(b.poll(999), None);
    b.observe(&"b".to_string(), 2, false, 900);
    assert_eq!(b.poll(1000), None);
    assert_eq!(b.poll(1899), None);
    assert_eq!(sorted(b.poll(1900).unwrap()), vec!["a".to_string(), "b".to_string()]);
    assert_eq!(b.poll(5000), None);
}

#[test]
fn entries_with_thumbnails_are_ignored() {
    let mut view = DirView::new();
    assert_eq!(view.on_item_bind(&entry(1, true), 1, 0), None);
    assert!(view.send_for_thumbnailing().is_empty());
    assert_eq!(view.poll_thumbnails(10_000), None);
}

#[test]
fn same_uri_is_pending_once() {
    let mut view = DirView::new();
    view.on_item_bind(&entry(1, false), 1, 0);
    view.on_item_bind(&entry(1, false), 7, 10);
    assert_eq!(view.send_for_thumbnailing(), vec!["file:///pics/f1.png".to_string()]);
    let done = view.on_thumbnailing_done(&vec![(
        "file:///pics/f1.png".to_string(),
        Some("/cache/f1.png".to_string()),
    )]);
    assert_eq!(done, vec![(7, "/cache/f1.png".to_string())]);
}

#[test]
fn results_resolve_pending_entries() {
    let mut view = DirView::new();
    for n in 0..3u32 {
        view.on_item_bind(&entry(n, false), 100 + n as u64, 0);
    }
    let results = vec![
        ("file:///pics/f0.png".to_string(), Some("/cache/0.png".to_string())),
        ("file:///pics/f2.png".to_string(), None),
        ("file:///elsewhere.png".to_string(), Some("/cache/x.png".to_string())),
    ];
    let done = view.on_thumbnailing_done(&results);
    assert_eq!(done, vec![(100, "/cache/0.png".to_string())]);
    assert_eq!(view.send_for_thumbnailing(), vec!["file:///pics/f1.png".to_string()]);
    // Delivered again, the same results change nothing.
    assert!(view.on_thumbnailing_done(&results).is_empty());
    assert_eq!(view.send_for_thumbnailing(), vec!["file:///pics/f1.png".to_string()]);
}

#[test]
fn unknown_result_is_noop() {
    let mut b = ThumbnailBatcher::new();
    b.observe(&"a".to_string(), 1, false, 0);
    let out = b.apply_results(&vec![("zzz".to_string(), Some("/p".to_string()))]);
    assert!(out.is_empty());
    assert_eq!(b.pending_keys(), vec!["a".to_string()]);
}

#[test]
fn folder_change_drops_pending() {
    let mut view = DirView::new();
    view.set_folder(Some(Folder { uri: "file:///pics".to_string(), has_path: true }));
    view.on_item_bind(&entry(1, false), 1, 0);
    assert!(view.set_folder(Some(Folder { uri: "file:///other".to_string(), has_path: true })));
    assert!(view.send_for_thumbnailing().is_empty());
    assert_eq!(view.poll_thumbnails(5000), None);
    let late = view.on_thumbnailing_done(&vec![(
        "file:///pics/f1.png".to_string(),
        Some("/cache/f1.png".to_string()),
    )]);
    assert!(late.is_empty());
}

#[test]
fn deadline_saturates() {
    let mut b = ThumbnailBatcher::new();
    assert_eq!(b.observe(&"a".to_string(), 1, false, u64::MAX - 10), Some(u64::MAX));
    assert_eq!(b.poll(u64::MAX - 1), None);
    assert_eq!(b.poll(u64::MAX), Some(vec!["a".to_string()]));
}

#[test]
fn clear_empties_batcher() {
    let mut b = ThumbnailBatcher::new();
    b.observe(&"a".to_string(), 1, false, 0);
    b.clear();
    assert!(b.pending_keys().is_empty());
    assert_eq!(b.poll(u64::MAX), None);
}
