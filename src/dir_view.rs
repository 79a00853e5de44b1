//! The state of a directory view: what folder it shows, how entries are
//! sorted and filtered, what is selected, and which entries wait for a
//! thumbnail. The toolkit that draws it hands in plain values and acts on
//! what comes back.
use vstd::prelude::*;

use crate::entry::{directory_type, is_dir, DirectoryEntry};
use crate::filtering::{
    classify_filter_change, classify_spec, opt_view, real_filter, real_filter_spec, visible,
    views, FileFilter, FilterChange, FilterSettings,
};
use crate::sorting::{compare_entries, entry_order, SortMode, SortSettings};
use crate::text::{fold, folded, strings_equal, SortOrder};
use crate::thumbnails::{
    apply_results, assignment_views, deadline_after, due, key_views, observe_step, poll_step,
    result_views, BatchModel, ThumbnailBatcher,
};

verus! {

/// Whether thumbnails are shown.
#[derive(Clone, Copy, Debug, PartialEq, Eq, Structural)]
pub enum ThumbnailMode {
    Never,
    Local,
}

/// What the view shows.
#[derive(Clone, Copy, Debug, PartialEq, Eq, Structural)]
pub enum DisplayMode {
    /// The folder's content.
    Content,
    /// Search results.
    Search,
    /// The folder is still loading.
    Loading,
}

/// How the sorted list must be told of a change of the sort settings.
#[derive(Clone, Copy, Debug, PartialEq, Eq, Structural)]
pub enum SorterChange {
    /// Sort again from scratch.
    Different,
    /// The same order, turned round.
    Inverted,
}

/// A folder to show.
#[derive(Clone, Debug)]
pub struct Folder {
    pub uri: String,
    /// Whether the folder is a place in the local file system (not, say,
    /// the list of recent files).
    pub has_path: bool,
}

/// What a change of selection asks the surrounding dialog to do.
#[derive(Clone, Debug)]
pub enum SelectionSignal {
    /// A directory was picked: open the folder with this URI.
    NewUri(String),
    /// A file was picked: offer this file name.
    NewFilename(String),
}

/// How a call to the thumbnailer failed.
#[derive(Clone, Copy, Debug, PartialEq, Eq, Structural)]
pub enum ThumbnailerFailure {
    /// No thumbnailer is installed.
    ServiceUnknown,
    /// Any other fault.
    Other,
}

/// The state behind a directory view.
pub struct DirView {
    folder: Option<Folder>,
    has_selection: bool,
    display_mode: DisplayMode,
    icon_size: u32,
    sort: SortSettings,
    filter: FilterSettings,
    type_filter: Option<FileFilter>,
    real_filter: Option<FileFilter>,
    thumbnail_mode: ThumbnailMode,
    thumbnails: ThumbnailBatcher,
}

/// The display mode that a search term calls for.
pub open spec fn search_display_mode(term: Option<Seq<char>>) -> DisplayMode {
    match term {
        Some(t) => if t.len() > 0 {
            DisplayMode::Search
        } else {
            DisplayMode::Content
        },
        None => DisplayMode::Content,
    }
}

/// The URI of a folder, if any.
pub open spec fn folder_uri(f: Option<Folder>) -> Option<Seq<char>> {
    match f {
        Some(x) => Some(x.uri@),
        None => None,
    }
}

/// Whether a folder can itself be chosen: it exists and has a path.
pub open spec fn valid_folder(f: Option<Folder>) -> bool {
    match f {
        Some(x) => x.has_path,
        None => false,
    }
}

impl DirView {
    pub closed spec fn spec_folder(&self) -> Option<Folder> {
        self.folder
    }

    pub closed spec fn spec_has_selection(&self) -> bool {
        self.has_selection
    }

    pub closed spec fn spec_display_mode(&self) -> DisplayMode {
        self.display_mode
    }

    pub closed spec fn spec_icon_size(&self) -> u32 {
        self.icon_size
    }

    pub closed spec fn spec_sort(&self) -> SortSettings {
        self.sort
    }

    pub closed spec fn spec_filter(&self) -> FilterSettings {
        self.filter
    }

    pub closed spec fn spec_type_filter(&self) -> Option<FileFilter> {
        self.type_filter
    }

    pub closed spec fn spec_real_filter(&self) -> Option<FileFilter> {
        self.real_filter
    }

    pub closed spec fn spec_thumbnail_mode(&self) -> ThumbnailMode {
        self.thumbnail_mode
    }

    pub closed spec fn spec_thumbnails(&self) -> BatchModel {
        self.thumbnails.model()
    }

    /// The thumbnail batcher is consistent, and the applied type filter is
    /// the chosen one with directories let through.
    pub closed spec fn wf(&self) -> bool {
        &&& self.thumbnails.wf()
        &&& match (self.type_filter, self.real_filter) {
            (Some(f), Some(r)) => real_filter_spec(f, r),
            (None, None) => true,
            _ => false,
        }
    }

    /// Folder, selection, display mode, filter and thumbnails as in `other`.
    pub open spec fn same_except_sort(&self, other: &DirView) -> bool {
        &&& self.spec_folder() == other.spec_folder()
        &&& self.spec_has_selection() == other.spec_has_selection()
        &&& self.spec_display_mode() == other.spec_display_mode()
        &&& self.spec_filter() == other.spec_filter()
        &&& self.spec_thumbnails() == other.spec_thumbnails()
    }

    /// Everything but the sort settings and the thumbnails as in `other`.
    pub open spec fn same_except_sort_and_thumbnails(&self, other: &DirView) -> bool {
        &&& self.spec_folder() == other.spec_folder()
        &&& self.spec_has_selection() == other.spec_has_selection()
        &&& self.spec_display_mode() == other.spec_display_mode()
        &&& self.spec_filter() == other.spec_filter()
    }

    /// A view of no folder, sorted by name with directories first, showing
    /// everything but hidden files.
    pub fn new() -> (r: DirView)
        ensures
            r.wf(),
            r.spec_folder() is None,
            !r.spec_has_selection(),
            r.spec_display_mode() == DisplayMode::Content,
            r.spec_icon_size() == 0,
            r.spec_sort() == (SortSettings {
                mode: SortMode::DisplayName,
                reversed: false,
                directories_first: true,
            }),
            r.spec_filter().search_term is None,
            !r.spec_filter().directories_only,
            !r.spec_filter().show_hidden,
            r.spec_type_filter() is None,
            r.spec_thumbnail_mode() == ThumbnailMode::Never,
            r.spec_thumbnails().pending == Map::<Seq<char>, u64>::empty(),
            r.spec_thumbnails().deadline is None,
    {
        DirView {
            folder: None,
            has_selection: false,
            display_mode: DisplayMode::Content,
            icon_size: 0,
            sort: SortSettings {
                mode: SortMode::DisplayName,
                reversed: false,
                directories_first: true,
            },
            filter: FilterSettings { search_term: None, directories_only: false, show_hidden: false },
            type_filter: None,
            real_filter: None,
            thumbnail_mode: ThumbnailMode::Never,
            thumbnails: ThumbnailBatcher::new(),
        }
    }

    /// The settings used when no stored settings are available: icons of 96
    /// pixels, thumbnails for local files.
    pub fn use_default_settings(&mut self)
        requires
            old(self).wf(),
        ensures
            final(self).wf(),
            final(self).spec_icon_size() == 96,
            final(self).spec_thumbnail_mode() == ThumbnailMode::Local,
            final(self).same_except_sort(old(self)),
            final(self).spec_sort() == old(self).spec_sort(),
    {
        self.icon_size = 96;
        self.thumbnail_mode = ThumbnailMode::Local;
    }

    /// Sets whether an item is selected; `true` when that changed it.
    pub fn set_has_selection(&mut self, has_selection: bool) -> (changed: bool)
        requires
            old(self).wf(),
        ensures
            final(self).wf(),
            changed == (has_selection != old(self).spec_has_selection()),
            final(self).spec_has_selection() == has_selection,
            final(self).spec_folder() == old(self).spec_folder(),
            final(self).spec_display_mode() == old(self).spec_display_mode(),
            final(self).spec_sort() == old(self).spec_sort(),
            final(self).spec_filter() == old(self).spec_filter(),
            final(self).spec_thumbnails() == old(self).spec_thumbnails(),
    {
        if has_selection == self.has_selection {
            return false;
        }
        self.has_selection = has_selection;
        true
    }

    /// When choosing directories, the current folder counts as selected
    /// exactly when it is a place with a path. Returns whether the
    /// selection changed.
    pub fn update_directory_selection(&mut self) -> (changed: bool)
        requires
            old(self).wf(),
        ensures
            final(self).wf(),
            final(self).spec_has_selection() == if old(self).spec_filter().directories_only {
                valid_folder(old(self).spec_folder())
            } else {
                old(self).spec_has_selection()
            },
            changed == (final(self).spec_has_selection() != old(self).spec_has_selection()),
            final(self).spec_folder() == old(self).spec_folder(),
            final(self).spec_display_mode() == old(self).spec_display_mode(),
            final(self).spec_sort() == old(self).spec_sort(),
            final(self).spec_filter() == old(self).spec_filter(),
            final(self).spec_thumbnails() == old(self).spec_thumbnails(),
    {
        if !self.filter.directories_only {
            return false;
        }
        let valid = match &self.folder {
            Some(f) => f.has_path,
            None => false,
        };
        self.set_has_selection(valid)
    }

    /// Shows another folder. `None`, or a folder with the current URI,
    /// changes nothing and gives `false`. Otherwise the entries waiting for
    /// thumbnails are dropped, the folder is set, and with directories only
    /// the selection follows it.
    pub fn set_folder(&mut self, folder: Option<Folder>) -> (changed: bool)
        requires
            old(self).wf(),
        ensures
            final(self).wf(),
            changed == (folder is Some && folder_uri(folder) != folder_uri(old(self).spec_folder())),
            !changed ==> final(self).spec_folder() == old(self).spec_folder()
                && final(self).spec_thumbnails() == old(self).spec_thumbnails()
                && final(self).spec_has_selection() == old(self).spec_has_selection(),
            changed ==> final(self).spec_folder() == folder
                && final(self).spec_thumbnails().pending == Map::<Seq<char>, u64>::empty()
                && final(self).spec_thumbnails().deadline is None
                && final(self).spec_has_selection() == if old(self).spec_filter().directories_only {
                    valid_folder(folder)
                } else {
                    old(self).spec_has_selection()
                },
            final(self).spec_display_mode() == old(self).spec_display_mode(),
            final(self).spec_sort() == old(self).spec_sort(),
            final(self).spec_filter() == old(self).spec_filter(),
    {
        let new_folder = match folder {
            Some(f) => f,
            None => {
                return false;
            },
        };
        if let Some(current) = &self.folder {
            if strings_equal(current.uri.as_str(), new_folder.uri.as_str()) {
                return false;
            }
        }
        self.thumbnails.clear();
        self.folder = Some(new_folder);
        self.update_directory_selection();
        true
    }

    /// Shows or hides hidden files. Gives `None` when nothing changed, else
    /// how the filter changed: showing more is less strict.
    pub fn set_show_hidden(&mut self, show_hidden: bool) -> (r: Option<FilterChange>)
        requires
            old(self).wf(),
        ensures
            final(self).wf(),
            final(self).spec_filter().show_hidden == show_hidden,
            final(self).spec_filter().search_term == old(self).spec_filter().search_term,
            final(self).spec_filter().directories_only == old(self).spec_filter().directories_only,
            r == if show_hidden == old(self).spec_filter().show_hidden {
                None
            } else if show_hidden {
                Some(FilterChange::LessStrict)
            } else {
                Some(FilterChange::MoreStrict)
            },
            final(self).spec_folder() == old(self).spec_folder(),
            final(self).spec_has_selection() == old(self).spec_has_selection(),
            final(self).spec_display_mode() == old(self).spec_display_mode(),
            final(self).spec_sort() == old(self).spec_sort(),
            final(self).spec_thumbnails() == old(self).spec_thumbnails(),
    {
        if self.filter.show_hidden == show_hidden {
            return None;
        }
        self.filter.show_hidden = show_hidden;
        if show_hidden {
            Some(FilterChange::LessStrict)
        } else {
            Some(FilterChange::MoreStrict)
        }
    }

    /// Chooses directories rather than files. Gives `None` when nothing
    /// changed, else how the filter changed: only directories is more
    /// strict. With directories only, the folder itself counts as selected
    /// when it has a path.
    pub fn set_directories_only(&mut self, directories_only: bool) -> (r: Option<FilterChange>)
        requires
            old(self).wf(),
        ensures
            final(self).wf(),
            final(self).spec_filter().directories_only == directories_only,
            final(self).spec_filter().search_term == old(self).spec_filter().search_term,
            final(self).spec_filter().show_hidden == old(self).spec_filter().show_hidden,
            r == if directories_only == old(self).spec_filter().directories_only {
                None
            } else if directories_only {
                Some(FilterChange::MoreStrict)
            } else {
                Some(FilterChange::LessStrict)
            },
            final(self).spec_has_selection() == if r is Some && directories_only {
                valid_folder(old(self).spec_folder())
            } else {
                old(self).spec_has_selection()
            },
            final(self).spec_folder() == old(self).spec_folder(),
            final(self).spec_display_mode() == old(self).spec_display_mode(),
            final(self).spec_sort() == old(self).spec_sort(),
            final(self).spec_thumbnails() == old(self).spec_thumbnails(),
    {
        if self.filter.directories_only == directories_only {
            return None;
        }
        self.filter.directories_only = directories_only;
        let strict = if directories_only {
            FilterChange::MoreStrict
        } else {
            FilterChange::LessStrict
        };
        self.update_directory_selection();
        Some(strict)
    }

    /// Sets an already trimmed and lowercased search term. Gives `None` when
    /// it equals the current one; else how the filter changed (see
    /// `classify_filter_change`). The view shows search results while the
    /// term is not empty, else the folder's content.
    pub fn apply_search_term(&mut self, term: Option<String>) -> (r: Option<FilterChange>)
        requires
            old(self).wf(),
        ensures
            final(self).wf(),
            opt_view(term) == opt_view(old(self).spec_filter().search_term) ==> r is None
                && final(self).spec_filter() == old(self).spec_filter()
                && final(self).spec_display_mode() == old(self).spec_display_mode(),
            opt_view(term) != opt_view(old(self).spec_filter().search_term) ==> r == Some(
                classify_spec(opt_view(old(self).spec_filter().search_term), opt_view(term)),
            ) && opt_view(final(self).spec_filter().search_term) == opt_view(term)
                && final(self).spec_display_mode() == search_display_mode(opt_view(term)),
            final(self).spec_filter().directories_only == old(self).spec_filter().directories_only,
            final(self).spec_filter().show_hidden == old(self).spec_filter().show_hidden,
            final(self).spec_folder() == old(self).spec_folder(),
            final(self).spec_has_selection() == old(self).spec_has_selection(),
            final(self).spec_sort() == old(self).spec_sort(),
            final(self).spec_thumbnails() == old(self).spec_thumbnails(),
    {
        let same = match (&self.filter.search_term, &term) {
            (Some(a), Some(b)) => strings_equal(a.as_str(), b.as_str()),
            (None, None) => true,
            _ => false,
        };
        if same {
            return None;
        }
        let strict = classify_filter_change(&self.filter.search_term, &term);
        let mode = match &term {
            Some(t) => if t.as_str().unicode_len() > 0 {
                DisplayMode::Search
            } else {
                DisplayMode::Content
            },
            None => DisplayMode::Content,
        };
        self.display_mode = mode;
        self.filter.search_term = term;
        Some(strict)
    }

    /// Sets the search term, trimmed and lowercased (see `apply_search_term`).
    pub fn set_search_term(&mut self, search_term: Option<String>) -> (r: Option<FilterChange>)
        requires
            old(self).wf(),
        ensures
            final(self).wf(),
            ({
                let term = match search_term {
                    Some(t) => Some(folded(t@)),
                    None => None,
                };
                let before = opt_view(old(self).spec_filter().search_term);
                &&& term == before ==> r is None && final(self).spec_filter() == old(self).spec_filter()
                    && final(self).spec_display_mode() == old(self).spec_display_mode()
                &&& term != before ==> r == Some(classify_spec(before, term)) && opt_view(
                    final(self).spec_filter().search_term,
                ) == term && final(self).spec_display_mode() == search_display_mode(term)
            }),
            final(self).spec_filter().directories_only == old(self).spec_filter().directories_only,
            final(self).spec_filter().show_hidden == old(self).spec_filter().show_hidden,
            final(self).spec_folder() == old(self).spec_folder(),
            final(self).spec_has_selection() == old(self).spec_has_selection(),
            final(self).spec_sort() == old(self).spec_sort(),
            final(self).spec_thumbnails() == old(self).spec_thumbnails(),
    {
        let term = match &search_term {
            Some(t) => Some(fold(t.as_str())),
            None => None,
        };
        self.apply_search_term(term)
    }

    /// Sets the chosen type filter, and with it the applied one, which also
    /// lets directories through.
    pub fn set_type_filter(&mut self, type_filter: Option<FileFilter>)
        requires
            old(self).wf(),
        ensures
            final(self).wf(),
            final(self).spec_type_filter() == type_filter,
            final(self).spec_folder() == old(self).spec_folder(),
            final(self).spec_has_selection() == old(self).spec_has_selection(),
            final(self).spec_display_mode() == old(self).spec_display_mode(),
            final(self).spec_sort() == old(self).spec_sort(),
            final(self).spec_filter() == old(self).spec_filter(),
            final(self).spec_thumbnails() == old(self).spec_thumbnails(),
    {
        self.real_filter = match &type_filter {
            Some(f) => Some(real_filter(f)),
            None => None,
        };
        self.type_filter = type_filter;
    }

    /// Sets criterion and reversed flag. Gives `None` when neither changed,
    /// `Inverted` when only the reversed flag flipped, else `Different`.
    pub fn set_sorting(&mut self, sort_mode: SortMode, reversed: bool) -> (r: Option<SorterChange>)
        requires
            old(self).wf(),
        ensures
            final(self).wf(),
            final(self).spec_sort() == (SortSettings {
                mode: sort_mode,
                reversed,
                directories_first: old(self).spec_sort().directories_first,
            }),
            r == if sort_mode != old(self).spec_sort().mode {
                Some(SorterChange::Different)
            } else if reversed != old(self).spec_sort().reversed {
                Some(SorterChange::Inverted)
            } else {
                None
            },
            final(self).same_except_sort(old(self)),
    {
        let change = if sort_mode != self.sort.mode {
            Some(SorterChange::Different)
        } else if reversed != self.sort.reversed {
            Some(SorterChange::Inverted)
        } else {
            None
        };
        self.sort.mode = sort_mode;
        self.sort.reversed = reversed;
        change
    }

    /// Sets the criterion, keeping the reversed flag (see `set_sorting`).
    pub fn set_sort_mode(&mut self, mode: SortMode) -> (r: Option<SorterChange>)
        requires
            old(self).wf(),
        ensures
            final(self).wf(),
            final(self).spec_sort() == (SortSettings { mode, ..old(self).spec_sort() }),
            r == if mode != old(self).spec_sort().mode {
                Some(SorterChange::Different)
            } else {
                None
            },
            final(self).same_except_sort(old(self)),
    {
        let reversed = self.sort.reversed;
        self.set_sorting(mode, reversed)
    }

    /// Sets the reversed flag, keeping the criterion (see `set_sorting`).
    pub fn set_reversed(&mut self, reversed: bool) -> (r: Option<SorterChange>)
        requires
            old(self).wf(),
        ensures
            final(self).wf(),
            final(self).spec_sort() == (SortSettings { reversed, ..old(self).spec_sort() }),
            r == if reversed != old(self).spec_sort().reversed {
                Some(SorterChange::Inverted)
            } else {
                None
            },
            final(self).same_except_sort(old(self)),
    {
        let mode = self.sort.mode;
        self.set_sorting(mode, reversed)
    }

    /// Sets whether directories come before files; when that changed, the
    /// list must be sorted again.
    pub fn set_directories_first(&mut self, directories_first: bool) -> (r: Option<SorterChange>)
        requires
            old(self).wf(),
        ensures
            final(self).wf(),
            final(self).spec_sort() == (SortSettings { directories_first, ..old(self).spec_sort() }),
            r == if directories_first != old(self).spec_sort().directories_first {
                Some(SorterChange::Different)
            } else {
                None
            },
            final(self).same_except_sort(old(self)),
    {
        if directories_first == self.sort.directories_first {
            return None;
        }
        self.sort.directories_first = directories_first;
        Some(SorterChange::Different)
    }

    /// Compares two entries as the view sorts them.
    pub fn compare(&self, a: &DirectoryEntry, b: &DirectoryEntry) -> (r: SortOrder)
        ensures
            r == entry_order(self.spec_sort(), *a, *b),
    {
        compare_entries(self.sort, a, b)
    }

    /// Whether the view shows an entry.
    pub fn is_visible(&self, e: &DirectoryEntry) -> (r: bool)
        ensures
            r == visible(self.spec_filter(), *e),
    {
        self.filter.is_visible(e)
    }
}

/// Whatever type filter is chosen, the filter applied lets directories
/// through, so that the user can always move between folders.
pub proof fn lemma_applied_filter_admits_directories(v: &DirView)
    requires
        v.wf(),
    ensures
        v.spec_type_filter() is Some <==> v.spec_real_filter() is Some,
        v.spec_real_filter() matches Some(r) ==> views(r.mime_types@).contains(directory_type()),
{
    if let Some(r) = v.spec_real_filter() {
        let f = v.spec_type_filter()->0;
        let n = views(f.mime_types@).len() as int;
        assert(views(r.mime_types@)[n] == directory_type());
    }
}

/// The page shown for a number of visible entries.
pub open spec fn page_name_spec(n_items: u32) -> Seq<char> {
    if n_items > 0 {
        "folder"@
    } else {
        "empty"@
    }
}

/// Picks the page to show for a number of visible entries.
pub fn page_for_item_count(n_items: u32) -> (r: &'static str)
    ensures
        r@ == page_name_spec(n_items),
{
    if n_items > 0 {
        "folder"
    } else {
        "empty"
    }
}

/// Whether a failed call to the thumbnailer is worth a warning: every fault
/// is, but a missing thumbnailer, which is a normal setup.
pub fn on_thumbnail_files_ready(result: Result<(), ThumbnailerFailure>) -> (warn: bool)
    ensures
        warn == (result == Err::<(), ThumbnailerFailure>(ThumbnailerFailure::Other)),
{
    match result {
        Ok(()) => false,
        Err(ThumbnailerFailure::ServiceUnknown) => false,
        Err(ThumbnailerFailure::Other) => true,
    }
}

/// The icon of the status page in a display mode.
pub open spec fn status_icon_spec(mode: DisplayMode) -> Seq<char> {
    match mode {
        DisplayMode::Search => "nautilus-folder-search-symbolic"@,
        _ => "folder-symbolic"@,
    }
}

/// The untranslated title of the status page in a display mode.
pub open spec fn status_title_spec(mode: DisplayMode) -> Seq<char> {
    match mode {
        DisplayMode::Search => "Search is empty"@,
        DisplayMode::Content => "Folder is empty"@,
        DisplayMode::Loading => "Folder is loading…"@,
    }
}

impl DirView {
    /// An entry was bound to a grid item. Unless it has a valid thumbnail,
    /// it is recorded under its URI with the item, and the debounce timer
    /// starts again: the time at which it falls due is returned.
    pub fn on_item_bind(&mut self, entry: &DirectoryEntry, item: u64, now: u64) -> (r: Option<u64>)
        requires
            old(self).wf(),
        ensures
            final(self).wf(),
            entry.thumbnail_valid ==> final(self).spec_thumbnails() == old(self).spec_thumbnails()
                && r is None,
            !entry.thumbnail_valid ==> final(self).spec_thumbnails() == observe_step(
                old(self).spec_thumbnails(),
                entry.uri@,
                item,
                now,
            ) && r == Some(deadline_after(now)),
            final(self).same_except_sort_and_thumbnails(old(self)),
            final(self).spec_sort() == old(self).spec_sort(),
    {
        self.thumbnails.observe(&entry.uri, item, entry.thumbnail_valid, now)
    }

    /// The URIs of the entries waiting for a thumbnail, each once: what one
    /// request to the thumbnailer asks for.
    pub fn send_for_thumbnailing(&self) -> (r: Vec<String>)
        requires
            self.wf(),
        ensures
            key_views(r@).no_duplicates(),
            key_views(r@).to_set() == self.spec_thumbnails().pending.dom(),
    {
        self.thumbnails.pending_keys()
    }

    /// Checks the debounce timer at `now`: when it is due, it is disarmed
    /// and the URIs to send are returned.
    pub fn poll_thumbnails(&mut self, now: u64) -> (r: Option<Vec<String>>)
        requires
            old(self).wf(),
        ensures
            final(self).wf(),
            final(self).spec_thumbnails() == poll_step(old(self).spec_thumbnails(), now),
            r is Some <==> due(old(self).spec_thumbnails(), now),
            r matches Some(v) ==> key_views(v@).no_duplicates() && key_views(v@).to_set()
                == old(self).spec_thumbnails().pending.dom(),
            final(self).same_except_sort_and_thumbnails(old(self)),
            final(self).spec_sort() == old(self).spec_sort(),
    {
        self.thumbnails.poll(now)
    }

    /// The thumbnailer answered with a path (or nothing usable) for each of
    /// some URIs. Those still pending leave the pending set; the items that
    /// now have a thumbnail are returned with its path.
    pub fn on_thumbnailing_done(&mut self, results: &Vec<(String, Option<String>)>) -> (r: Vec<(u64, String)>)
        requires
            old(self).wf(),
        ensures
            final(self).wf(),
            final(self).spec_thumbnails().deadline == old(self).spec_thumbnails().deadline,
            (final(self).spec_thumbnails().pending, assignment_views(r@)) == apply_results(
                old(self).spec_thumbnails().pending,
                result_views(results@),
            ),
            final(self).same_except_sort_and_thumbnails(old(self)),
            final(self).spec_sort() == old(self).spec_sort(),
    {
        self.thumbnails.apply_results(results)
    }

    /// The selection moved to `selected`, or to nothing. A directory asks to
    /// be opened; a file offers its name and counts as a selection. When
    /// choosing directories the selection is left to the folder.
    pub fn on_selection_changed(&mut self, selected: Option<&DirectoryEntry>) -> (r: Option<
        SelectionSignal,
    >)
        requires
            old(self).wf(),
        ensures
            final(self).wf(),
            match selected {
                None => r is None,
                Some(e) => if is_dir(*e) {
                    r matches Some(SelectionSignal::NewUri(u)) && u@ == e.uri@
                } else {
                    r matches Some(SelectionSignal::NewFilename(n)) && n@ == e.basename@
                },
            },
            final(self).spec_has_selection() == if old(self).spec_filter().directories_only {
                old(self).spec_has_selection()
            } else {
                selected matches Some(e) && !is_dir(*e)
            },
            final(self).spec_folder() == old(self).spec_folder(),
            final(self).spec_display_mode() == old(self).spec_display_mode(),
            final(self).spec_sort() == old(self).spec_sort(),
            final(self).spec_filter() == old(self).spec_filter(),
            final(self).spec_thumbnails() == old(self).spec_thumbnails(),
    {
        let mut is_selected = false;
        let signal = match selected {
            Some(e) => {
                if e.is_directory() {
                    Some(SelectionSignal::NewUri(e.uri.clone()))
                } else {
                    is_selected = true;
                    Some(SelectionSignal::NewFilename(e.basename.clone()))
                }
            },
            None => None,
        };
        if !self.filter.directories_only {
            self.set_has_selection(is_selected);
        }
        signal
    }

    /// The folder started or finished loading.
    pub fn on_loading_changed(&mut self, is_loading: bool)
        requires
            old(self).wf(),
        ensures
            final(self).wf(),
            final(self).spec_display_mode() == if is_loading {
                DisplayMode::Loading
            } else {
                DisplayMode::Content
            },
            final(self).spec_folder() == old(self).spec_folder(),
            final(self).spec_has_selection() == old(self).spec_has_selection(),
            final(self).spec_sort() == old(self).spec_sort(),
            final(self).spec_filter() == old(self).spec_filter(),
            final(self).spec_thumbnails() == old(self).spec_thumbnails(),
    {
        self.display_mode = if is_loading {
            DisplayMode::Loading
        } else {
            DisplayMode::Content
        };
    }

    /// The icon of the status page shown when no entry is visible.
    pub fn searching_to_status_page_icon(&self) -> (r: &'static str)
        ensures
            r@ == status_icon_spec(self.spec_display_mode()),
    {
        match self.display_mode {
            DisplayMode::Search => "nautilus-folder-search-symbolic",
            DisplayMode::Content | DisplayMode::Loading => "folder-symbolic",
        }
    }

    /// The title of the status page, untranslated.
    pub fn searching_to_status_page_title(&self) -> (r: &'static str)
        ensures
            r@ == status_title_spec(self.spec_display_mode()),
    {
        match self.display_mode {
            DisplayMode::Search => "Search is empty",
            DisplayMode::Content => "Folder is empty",
            DisplayMode::Loading => "Folder is loading…",
        }
    }

    /// Whether the status page shows a spinner: while loading.
    pub fn loading_to_status_page_spinner(&self) -> (r: bool)
        ensures
            r == (self.spec_display_mode() == DisplayMode::Loading),
    {
        match self.display_mode {
            DisplayMode::Loading => true,
            _ => false,
        }
    }

    /// The chosen URIs. When choosing directories it is the folder, if it
    /// has a path; else the selected entry, if any.
    pub fn selected(&self, selected: Option<&DirectoryEntry>) -> (r: Option<Vec<String>>)
        ensures
            self.spec_filter().directories_only ==> match self.spec_folder() {
                Some(f) => if f.has_path {
                    r matches Some(v) && v@.len() == 1 && v@[0]@ == f.uri@
                } else {
                    r is None
                },
                None => r is None,
            },
            !self.spec_filter().directories_only ==> match selected {
                Some(e) => r matches Some(v) && v@.len() == 1 && v@[0]@ == e.uri@,
                None => r is None,
            },
    {
        if self.filter.directories_only {
            match &self.folder {
                Some(f) => if f.has_path {
                    Some(vec![f.uri.clone()])
                } else {
                    None
                },
                None => None,
            }
        } else {
            match selected {
                Some(e) => Some(vec![e.uri.clone()]),
                None => None,
            }
        }
    }
}

/// `order` lists each index of a visible entry once, nothing else, and
/// adjacent entries are in the view's order.
pub open spec fn is_listing(
    order: Seq<usize>,
    entries: Seq<DirectoryEntry>,
    f: FilterSettings,
    s: SortSettings,
) -> bool {
    listing_upto(order, entries, f, s, entries.len() as int)
}

/// `order` picks, once each, exactly the indices below `n` that `keep`
/// holds of, and each is related by `le` to the next.
pub open spec fn ordered_selection(
    order: Seq<usize>,
    keep: spec_fn(int) -> bool,
    le: spec_fn(int, int) -> bool,
    n: int,
) -> bool {
    &&& order.no_duplicates()
    &&& forall|k: int| 0 <= k < order.len() ==> #[trigger] order[k] < n
    &&& forall|i: int| 0 <= i < n ==> (order.contains(i as usize) <==> #[trigger] keep(i))
    &&& forall|k: int| 0 <= k < order.len() - 1 ==> #[trigger] le(order[k] as int, order[k + 1] as int)
}

/// `order` is a listing of the first `n` entries.
pub open spec fn listing_upto(
    order: Seq<usize>,
    entries: Seq<DirectoryEntry>,
    f: FilterSettings,
    s: SortSettings,
    n: int,
) -> bool {
    ordered_selection(
        order,
        |j: int| visible(f, entries[j]),
        |a: int, b: int| entry_order(s, entries[a], entries[b]) != SortOrder::Larger,
        n,
    )
}

proof fn lemma_selection_skip(order: Seq<usize>, keep: spec_fn(int) -> bool, le: spec_fn(int, int) -> bool, n: int)
    requires
        0 <= n < usize::MAX,
        ordered_selection(order, keep, le, n),
        !keep(n),
    ensures
        ordered_selection(order, keep, le, n + 1),
{
    assert forall|j: int| 0 <= j < n + 1 implies (order.contains(j as usize) <==> #[trigger] keep(j)) by {
        if j == n && order.contains(j as usize) {
            let k = choose|k: int| 0 <= k < order.len() && order[k] == j as usize;
            assert(order[k] < n);
        }
    }
}

proof fn lemma_selection_insert(
    before: Seq<usize>,
    keep: spec_fn(int) -> bool,
    le: spec_fn(int, int) -> bool,
    n: usize,
    p: int,
)
    requires
        ordered_selection(before, keep, le, n as int),
        keep(n as int),
        0 <= p <= before.len(),
        p > 0 ==> le(before[p - 1] as int, n as int),
        p < before.len() ==> le(n as int, before[p] as int),
    ensures
        ordered_selection(before.insert(p, n), keep, le, n + 1),
{
    let out = before.insert(p, n);
    assert forall|k: int| 0 <= k < out.len() implies #[trigger] out[k] < n + 1 by {
        if k < p {
            assert(out[k] == before[k]);
        } else if k > p {
            assert(out[k] == before[k - 1]);
        }
    }
    assert forall|a: int, b: int| 0 <= a < b < out.len() implies out[a] != out[b] by {
        if a != p && b != p {
            let oa = if a < p { a } else { a - 1 };
            let ob = if b < p { b } else { b - 1 };
            assert(out[a] == before[oa]);
            assert(out[b] == before[ob]);
        } else if a == p {
            let ob = if b < p { b } else { b - 1 };
            assert(out[b] == before[ob]);
        } else {
            let oa = if a < p { a } else { a - 1 };
            assert(out[a] == before[oa]);
        }
    }
    assert forall|j: int| 0 <= j < n + 1 implies (out.contains(j as usize) <==> #[trigger] keep(j)) by {
        if j < n {
            if before.contains(j as usize) {
                let k = choose|k: int| 0 <= k < before.len() && before[k] == j as usize;
                if k < p {
                    assert(out[k] == j as usize);
                } else {
                    assert(out[k + 1] == j as usize);
                }
            }
            if out.contains(j as usize) {
                let k = choose|k: int| 0 <= k < out.len() && out[k] == j as usize;
                if k < p {
                    assert(before[k] == j as usize);
                } else {
                    assert(k != p);
                    assert(before[k - 1] == j as usize);
                }
            }
        } else {
            assert(out[p] == n);
        }
    }
    assert forall|k: int| 0 <= k < out.len() - 1 implies #[trigger] le(out[k] as int, out[k + 1] as int) by {
        assert(out[p] == n);
        if k + 1 < p {
            assert(out[k] == before[k] && out[k + 1] == before[k + 1]);
            assert(le(before[k] as int, before[k + 1] as int));
        } else if k + 1 == p {
            assert(out[k] == before[k]);
        } else if k == p {
            assert(out[k + 1] == before[k]);
        } else {
            assert(out[k] == before[k - 1] && out[k + 1] == before[k]);
            assert(le(before[k - 1] as int, before[(k - 1) + 1] as int));
        }
    }
}

impl DirView {
    /// The indices of the entries that the view shows, in the order it shows
    /// them.
    pub fn visible_sorted(&self, entries: &Vec<DirectoryEntry>) -> (r: Vec<usize>)
        ensures
            is_listing(r@, entries@, self.spec_filter(), self.spec_sort()),
    {
        let ghost keep = |j: int| visible(self.spec_filter(), entries@[j]);
        let ghost le = |a: int, b: int| entry_order(self.spec_sort(), entries@[a], entries@[b]) != SortOrder::Larger;
        let mut out: Vec<usize> = Vec::new();
        let mut i: usize = 0;
        while i < entries.len()
            invariant
                i <= entries@.len(),
                ordered_selection(out@, keep, le, i as int),
                keep == (|j: int| visible(self.spec_filter(), entries@[j])),
                le == (|a: int, b: int| entry_order(self.spec_sort(), entries@[a], entries@[b]) != SortOrder::Larger),
            decreases entries.len() - i,
        {
            if self.is_visible(&entries[i]) {
                let mut p: usize = 0;
                while p < out.len() && self.compare(&entries[i], &entries[out[p]]) != SortOrder::Smaller
                    invariant
                        p <= out@.len(),
                        i < entries@.len(),
                        forall|k: int| 0 <= k < out@.len() ==> #[trigger] out@[k] < i,
                        p > 0 ==> le(out@[p - 1] as int, i as int),
                        le == (|a: int, b: int| entry_order(self.spec_sort(), entries@[a], entries@[b]) != SortOrder::Larger),
                    decreases out.len() - p,
                {
                    proof {
                        crate::sorting::lemma_entry_order_antisymmetric(
                            self.spec_sort(),
                            entries@[i as int],
                            entries@[out@[p as int] as int],
                        );
                    }
                    p = p + 1;
                }
                proof {
                    lemma_selection_insert(out@, keep, le, i, p as int);
                }
                out.insert(p, i);
            } else {
                proof {
                    lemma_selection_skip(out@, keep, le, i as int);
                }
            }
            i = i + 1;
        }
        out
    }
}
impl DirView {
    pub fn folder(&self) -> (r: &Option<Folder>)
        ensures
            *r == self.spec_folder(),
    {
        &self.folder
    }

    pub fn has_selection(&self) -> (r: bool)
        ensures
            r == self.spec_has_selection(),
    {
        self.has_selection
    }

    pub fn display_mode(&self) -> (r: DisplayMode)
        ensures
            r == self.spec_display_mode(),
    {
        self.display_mode
    }

    pub fn search_term(&self) -> (r: &Option<String>)
        ensures
            *r == self.spec_filter().search_term,
    {
        &self.filter.search_term
    }

    pub fn icon_size(&self) -> (r: u32)
        ensures
            r == self.spec_icon_size(),
    {
        self.icon_size
    }

    pub fn set_icon_size(&mut self, icon_size: u32)
        requires
            old(self).wf(),
        ensures
            final(self).wf(),
            final(self).spec_icon_size() == icon_size,
            final(self).spec_thumbnail_mode() == old(self).spec_thumbnail_mode(),
            final(self).same_except_sort(old(self)),
            final(self).spec_sort() == old(self).spec_sort(),
    {
        self.icon_size = icon_size;
    }

    pub fn sort_mode(&self) -> (r: SortMode)
        ensures
            r == self.spec_sort().mode,
    {
        self.sort.mode
    }

    pub fn reversed(&self) -> (r: bool)
        ensures
            r == self.spec_sort().reversed,
    {
        self.sort.reversed
    }

    pub fn directories_first(&self) -> (r: bool)
        ensures
            r == self.spec_sort().directories_first,
    {
        self.sort.directories_first
    }

    pub fn show_hidden(&self) -> (r: bool)
        ensures
            r == self.spec_filter().show_hidden,
    {
        self.filter.show_hidden
    }

    pub fn directories_only(&self) -> (r: bool)
        ensures
            r == self.spec_filter().directories_only,
    {
        self.filter.directories_only
    }

    pub fn type_filter(&self) -> (r: &Option<FileFilter>)
        ensures
            *r == self.spec_type_filter(),
    {
        &self.type_filter
    }

    pub fn real_filter(&self) -> (r: &Option<FileFilter>)
        ensures
            *r == self.spec_real_filter(),
    {
        &self.real_filter
    }

    pub fn thumbnail_mode(&self) -> (r: ThumbnailMode)
        ensures
            r == self.spec_thumbnail_mode(),
    {
        self.thumbnail_mode
    }

    pub fn set_thumbnail_mode(&mut self, mode: ThumbnailMode)
        requires
            old(self).wf(),
        ensures
            final(self).wf(),
            final(self).spec_thumbnail_mode() == mode,
            final(self).spec_icon_size() == old(self).spec_icon_size(),
            final(self).same_except_sort(old(self)),
            final(self).spec_sort() == old(self).spec_sort(),
    {
        self.thumbnail_mode = mode;
    }
}

} // verus!
