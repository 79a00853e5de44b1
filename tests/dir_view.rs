use pfs::dir_view::{
    on_thumbnail_files_ready, page_for_item_count, DirView, DisplayMode, Folder, SelectionSignal,
    SorterChange, ThumbnailMode, ThumbnailerFailure,
};
use pfs::entry::DirectoryEntry;
use pfs::filtering::{classify_filter_change, real_filter, FileFilter, FilterChange};
use pfs::sorting::SortMode;
use pfs::text::SortOrder;

fn file(name: &str) -> DirectoryEntry {
    DirectoryEntry::new(
        name.to_string(),
        name.to_string(),
        "text/plain".to_string(),
        None,
        0,
        format!("file:///tmp/{name}"),
        false,
    )
}

fn dir(name: &str) -> DirectoryEntry {
    DirectoryEntry::new(
        name.to_string(),
        name.to_string(),
        "inode/directory".to_string(),
        None,
        0,
        format!("file:///tmp/{name}"),
        false,
    )
}

fn with_time(mut e: DirectoryEntry, t: i64) -> DirectoryEntry {
    e.modified = Some(t);
    e
}

fn names(entries: &[DirectoryEntry], order: &[usize]) -> Vec<String> {
    order.iter().map(|&i| entries[i].display_name.clone()).collect()
}

fn some(s: &str) -> Option<String> {
    Some(s.to_string())
}

#[test]
fn classify_more_strict() {
    assert_eq!(classify_filter_change(&some("re"), &some("rep")), FilterChange::MoreStrict);
}

#[test]
fn classify_less_strict() {
    assert_eq!(classify_filter_change(&some("rep"), &some("re")), FilterChange::LessStrict);
}

#[test]
fn classify_different() {
    assert_eq!(classify_filter_change(&some("re"), &some("ax")), FilterChange::Different);
    assert_eq!(classify_filter_change(&None, &some("re")), FilterChange::Different);
    assert_eq!(classify_filter_change(&some("re"), &None), FilterChange::Different);
}

#[test]
fn hidden_files_left_out_directories_first() {
    let view = DirView::new();
    let entries = vec![file("b.txt"), dir("A"), file(".hidden")];
    let order = view.visible_sorted(&entries);
    assert_eq!(names(&entries, &order), vec!["A", "b.txt"]);
}

#[test]
fn show_hidden_lists_hidden_files() {
    let mut view = DirView::new();
    assert_eq!(view.set_show_hidden(true), Some(FilterChange::LessStrict));
    assert_eq!(view.set_show_hidden(true), None);
    let entries = vec![file("b.txt"), dir("A"), file(".hidden")];
    let order = view.visible_sorted(&entries);
    assert_eq!(names(&entries, &order), vec!["A", ".hidden", "b.txt"]);
    assert_eq!(view.set_show_hidden(false), Some(FilterChange::MoreStrict));
}

#[test]
fn directories_first_whatever_the_criterion() {
    let mut view = DirView::new();
    let d = with_time(dir("zeta"), 5);
    let f = with_time(file("alpha"), 1);
    for mode in [SortMode::DisplayName, SortMode::ModificationTime] {
        for reversed in [false, true] {
            view.set_sorting(mode, reversed);
            assert_eq!(view.compare(&d, &f), SortOrder::Smaller);
            assert_eq!(view.compare(&f, &d), SortOrder::Larger);
        }
    }
}

#[test]
fn mixed_when_directories_not_first() {
    let mut view = DirView::new();
    assert_eq!(view.set_directories_first(false), Some(SorterChange::Different));
    assert_eq!(view.set_directories_first(false), None);
    let entries = vec![dir("b"), file("a"), file("c")];
    let order = view.visible_sorted(&entries);
    assert_eq!(names(&entries, &order), vec!["a", "b", "c"]);
}

#[test]
fn sort_by_name_reversed() {
    let mut view = DirView::new();
    assert_eq!(view.set_reversed(true), Some(SorterChange::Inverted));
    let entries = vec![file("b"), file("a"), file("c"), dir("x"), dir("y")];
    let order = view.visible_sorted(&entries);
    assert_eq!(names(&entries, &order), vec!["y", "x", "c", "b", "a"]);
}

#[test]
fn reversing_twice_restores_order() {
    let mut view = DirView::new();
    let entries = vec![file("b"), file("a"), dir("d"), file("c")];
    let before = view.visible_sorted(&entries);
    assert_eq!(view.set_reversed(true), Some(SorterChange::Inverted));
    let flipped = view.visible_sorted(&entries);
    assert_eq!(names(&entries, &flipped), vec!["d", "c", "b", "a"]);
    assert_eq!(view.set_reversed(false), Some(SorterChange::Inverted));
    assert_eq!(view.visible_sorted(&entries), before);
    assert_eq!(names(&entries, &before), vec!["d", "a", "b", "c"]);
}

#[test]
fn sort_by_modification_time() {
    let mut view = DirView::new();
    assert_eq!(view.set_sort_mode(SortMode::ModificationTime), Some(SorterChange::Different));
    assert_eq!(view.set_sort_mode(SortMode::ModificationTime), None);
    let entries = vec![
        with_time(file("new"), 300),
        with_time(file("old"), 100),
        file("unknown"),
        with_time(file("mid"), 200),
    ];
    let order = view.visible_sorted(&entries);
    assert_eq!(names(&entries, &order), vec!["unknown", "old", "mid", "new"]);
}

#[test]
fn set_sorting_reports_change() {
    let mut view = DirView::new();
    assert_eq!(view.set_sorting(SortMode::DisplayName, false), None);
    assert_eq!(view.set_sorting(SortMode::DisplayName, true), Some(SorterChange::Inverted));
    assert_eq!(view.set_sorting(SortMode::ModificationTime, true), Some(SorterChange::Different));
    assert_eq!(view.sort_mode(), SortMode::ModificationTime);
    assert!(view.reversed());
}

#[test]
fn name_comparison_is_by_characters() {
    let view = DirView::new();
    assert_eq!(view.compare(&file("B"), &file("a")), SortOrder::Smaller);
    assert_eq!(view.compare(&file("ab"), &file("abc")), SortOrder::Smaller);
    assert_eq!(view.compare(&file("same"), &file("same")), SortOrder::Equal);
}

#[test]
fn search_term_is_trimmed_and_lowercased() {
    let mut view = DirView::new();
    assert_eq!(view.set_search_term(some("  RE ")), Some(FilterChange::Different));
    assert_eq!(view.search_term(), &some("re"));
    assert_eq!(view.display_mode(), DisplayMode::Search);
    assert_eq!(view.set_search_term(some("Re")), None);
    assert_eq!(view.set_search_term(some("REP")), Some(FilterChange::MoreStrict));
    assert_eq!(view.set_search_term(some("r")), Some(FilterChange::LessStrict));
    assert_eq!(view.set_search_term(some("x")), Some(FilterChange::Different));
    assert_eq!(view.set_search_term(some("   ")), Some(FilterChange::LessStrict));
    assert_eq!(view.display_mode(), DisplayMode::Content);
    assert_eq!(view.set_search_term(None), Some(FilterChange::Different));
    assert_eq!(view.search_term(), &None);
}

#[test]
fn search_matches_name_prefix_ignoring_case() {
    let mut view = DirView::new();
    view.set_search_term(some("rep"));
    let entries = vec![file("Report.pdf"), file("reply"), file("prep"), dir("REPO "), file(" repl")];
    let order = view.visible_sorted(&entries);
    assert_eq!(names(&entries, &order), vec!["REPO ", " repl", "Report.pdf", "reply"]);
}

#[test]
fn directories_only_filters_files() {
    let mut view = DirView::new();
    assert_eq!(view.set_directories_only(true), Some(FilterChange::MoreStrict));
    assert_eq!(view.set_directories_only(true), None);
    let entries = vec![file("a"), dir("b"), dir(".c")];
    let order = view.visible_sorted(&entries);
    assert_eq!(names(&entries, &order), vec!["b"]);
    assert_eq!(view.set_directories_only(false), Some(FilterChange::LessStrict));
}

#[test]
fn folder_selected_when_choosing_directories() {
    let mut view = DirView::new();
    view.set_directories_only(true);
    assert!(!view.has_selection());
    assert!(view.set_folder(Some(Folder { uri: "file:///tmp".to_string(), has_path: true })));
    assert!(view.has_selection());
    assert_eq!(view.selected(None), Some(vec!["file:///tmp".to_string()]));
    assert!(!view.set_folder(Some(Folder { uri: "file:///tmp".to_string(), has_path: true })));
    assert!(!view.set_folder(None));
    assert!(view.set_folder(Some(Folder { uri: "recent:///".to_string(), has_path: false })));
    assert!(!view.has_selection());
    assert_eq!(view.selected(None), None);
}

#[test]
fn selecting_files_and_directories() {
    let mut view = DirView::new();
    let f = file("notes.txt");
    let d = dir("docs");
    match view.on_selection_changed(Some(&f)) {
        Some(SelectionSignal::NewFilename(n)) => assert_eq!(n, "notes.txt"),
        other => panic!("unexpected {other:?}"),
    }
    assert!(view.has_selection());
    assert_eq!(view.selected(Some(&f)), Some(vec!["file:///tmp/notes.txt".to_string()]));
    match view.on_selection_changed(Some(&d)) {
        Some(SelectionSignal::NewUri(u)) => assert_eq!(u, "file:///tmp/docs"),
        other => panic!("unexpected {other:?}"),
    }
    assert!(!view.has_selection());
    assert!(view.on_selection_changed(None).is_none());
    assert_eq!(view.selected(None), None);
}

#[test]
fn status_page_follows_display_mode() {
    let mut view = DirView::new();
    assert_eq!(view.searching_to_status_page_icon(), "folder-symbolic");
    assert_eq!(view.searching_to_status_page_title(), "Folder is empty");
    assert!(!view.loading_to_status_page_spinner());
    view.on_loading_changed(true);
    assert_eq!(view.display_mode(), DisplayMode::Loading);
    assert_eq!(view.searching_to_status_page_title(), "Folder is loading…");
    assert!(view.loading_to_status_page_spinner());
    view.on_loading_changed(false);
    view.set_search_term(some("x"));
    assert_eq!(view.searching_to_status_page_icon(), "nautilus-folder-search-symbolic");
    assert_eq!(view.searching_to_status_page_title(), "Search is empty");
}

#[test]
fn page_for_count() {
    assert_eq!(page_for_item_count(0), "empty");
    assert_eq!(page_for_item_count(3), "folder");
}

#[test]
fn thumbnailer_failures() {
    assert!(!on_thumbnail_files_ready(Ok(())));
    assert!(!on_thumbnail_files_ready(Err(ThumbnailerFailure::ServiceUnknown)));
    assert!(on_thumbnail_files_ready(Err(ThumbnailerFailure::Other)));
}

#[test]
fn type_filter_lets_directories_through() {
    let mut view = DirView::new();
    let f = FileFilter {
        name: some("Images"),
        mime_types: vec!["image/png".to_string()],
        patterns: vec!["*.jpg".to_string()],
        suffixes: vec![],
    };
    let r = real_filter(&f);
    assert_eq!(r.mime_types, vec!["image/png".to_string(), "inode/directory".to_string()]);
    assert_eq!(r.patterns, vec!["*.jpg".to_string()]);
    assert_eq!(r.name, some("Images"));
    view.set_type_filter(Some(f.clone()));
    assert_eq!(view.type_filter().as_ref().unwrap().mime_types, f.mime_types);
    assert_eq!(view.real_filter().as_ref().unwrap().mime_types, r.mime_types);
    view.set_type_filter(None);
    assert!(view.real_filter().is_none());
}

#[test]
fn defaults_and_settings() {
    let mut view = DirView::new();
    assert!(view.directories_first());
    assert!(!view.show_hidden());
    assert!(!view.directories_only());
    assert_eq!(view.icon_size(), 0);
    assert_eq!(view.thumbnail_mode(), ThumbnailMode::Never);
    view.use_default_settings();
    assert_eq!(view.icon_size(), 96);
    assert_eq!(view.thumbnail_mode(), ThumbnailMode::Local);
    view.set_icon_size(64);
    view.set_thumbnail_mode(ThumbnailMode::Never);
    assert_eq!(view.icon_size(), 64);
    assert_eq!(view.thumbnail_mode(), ThumbnailMode::Never);
    assert!(view.folder().is_none());
}
