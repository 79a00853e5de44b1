//! Which entries are shown, and how a change of the filter relates to the
//! one before it.
use vstd::prelude::*;

use crate::entry::{directory_type, is_dir, is_hidden, DirectoryEntry, DIRECTORY_CONTENT_TYPE};
use crate::text::{fold, folded, has_prefix};

verus! {

/// How a new filter relates to the previous one.
#[derive(Clone, Copy, Debug, PartialEq, Eq, Structural)]
pub enum FilterChange {
    /// No relation: every entry must be checked again.
    Different,
    /// Everything shown before is still shown.
    LessStrict,
    /// Nothing hidden before is shown now.
    MoreStrict,
}

/// The three switches that decide whether an entry is shown.
#[derive(Clone, Debug)]
pub struct FilterSettings {
    /// The normalised search term, if any.
    pub search_term: Option<String>,
    pub directories_only: bool,
    pub show_hidden: bool,
}

/// The classification of a change of search term from `old` to `new`.
pub open spec fn classify_spec(old: Option<Seq<char>>, new: Option<Seq<char>>) -> FilterChange {
    match (old, new) {
        (Some(o), Some(n)) => {
            if n.is_prefix_of(o) {
                FilterChange::LessStrict
            } else if o.is_prefix_of(n) {
                FilterChange::MoreStrict
            } else {
                FilterChange::Different
            }
        },
        _ => FilterChange::Different,
    }
}

/// The view of an optional string.
pub open spec fn opt_view(s: Option<String>) -> Option<Seq<char>> {
    match s {
        Some(t) => Some(t@),
        None => None,
    }
}

/// Whether an entry whose folded display name is `name` passes the filter.
pub open spec fn passes(f: FilterSettings, name: Seq<char>, e: DirectoryEntry) -> bool {
    &&& match f.search_term {
        Some(t) => t@.is_prefix_of(name),
        None => true,
    }
    &&& (!f.directories_only || is_dir(e))
    &&& (f.show_hidden || !is_hidden(e))
}

/// Whether an entry passes the filter.
pub open spec fn visible(f: FilterSettings, e: DirectoryEntry) -> bool {
    passes(f, folded(e.display_name@), e)
}

/// Classifies a change of search term: less strict when the new term is a
/// prefix of the old one, more strict when the old is a prefix of the new,
/// otherwise (or when either is absent) different.
pub fn classify_filter_change(old: &Option<String>, new: &Option<String>) -> (r: FilterChange)
    ensures
        r == classify_spec(opt_view(*old), opt_view(*new)),
{
    match (old, new) {
        (Some(o), Some(n)) => {
            if has_prefix(o.as_str(), n.as_str()) {
                FilterChange::LessStrict
            } else if has_prefix(n.as_str(), o.as_str()) {
                FilterChange::MoreStrict
            } else {
                FilterChange::Different
            }
        },
        _ => FilterChange::Different,
    }
}

impl FilterSettings {
    /// Whether `e` passes the filter, given its display name already folded.
    pub fn passes_folded(&self, folded_name: &str, e: &DirectoryEntry) -> (r: bool)
        ensures
            r == passes(*self, folded_name@, *e),
    {
        if let Some(t) = &self.search_term {
            if !has_prefix(folded_name, t.as_str()) {
                return false;
            }
        }
        if self.directories_only && !e.is_directory() {
            return false;
        }
        if self.show_hidden {
            return true;
        }
        !e.is_hidden()
    }

    /// Whether `e` passes the filter.
    pub fn is_visible(&self, e: &DirectoryEntry) -> (r: bool)
        ensures
            r == visible(*self, *e),
    {
        let name = fold(e.display_name.as_str());
        self.passes_folded(name.as_str(), e)
    }
}

/// A filter on content types, names and suffixes.
#[derive(Clone, Debug)]
pub struct FileFilter {
    pub name: Option<String>,
    pub mime_types: Vec<String>,
    pub patterns: Vec<String>,
    pub suffixes: Vec<String>,
}

/// The views of a vector of strings.
pub open spec fn views(v: Seq<String>) -> Seq<Seq<char>> {
    v.map_values(|s: String| s@)
}

/// The filter that is applied: the chosen one, with directories let through
/// so that the user can still move between folders.
pub open spec fn real_filter_spec(f: FileFilter, r: FileFilter) -> bool {
    &&& opt_view(r.name) == opt_view(f.name)
    &&& views(r.mime_types@) == views(f.mime_types@).push(directory_type())
    &&& views(r.patterns@) == views(f.patterns@)
    &&& views(r.suffixes@) == views(f.suffixes@)
}

fn copy_strings(v: &Vec<String>) -> (r: Vec<String>)
    ensures
        views(r@) == views(v@),
{
    let mut out: Vec<String> = Vec::new();
    let mut i: usize = 0;
    while i < v.len()
        invariant
            i <= v.len(),
            views(out@) == views(v@.subrange(0, i as int)),
        decreases v.len() - i,
    {
        out.push(v[i].clone());
        assert(views(v@.subrange(0, i + 1)) =~= views(v@.subrange(0, i as int)).push(v@[i as int]@));
        assert(views(out@) =~= views(v@.subrange(0, i as int)).push(v@[i as int]@));
        i = i + 1;
    }
    assert(v@.subrange(0, v.len() as int) =~= v@);
    out
}

/// The filter to apply for a chosen type filter: a copy of it that also
/// admits directories. The chosen filter itself is left as it is.
pub fn real_filter(f: &FileFilter) -> (r: FileFilter)
    ensures
        real_filter_spec(*f, r),
{
    let mut mime_types = copy_strings(&f.mime_types);
    let ghost before = mime_types@;
    mime_types.push(DIRECTORY_CONTENT_TYPE.to_string());
    proof {
        assert(views(mime_types@) =~= views(before).push(directory_type()));
    }
    FileFilter {
        name: f.name.clone(),
        mime_types,
        patterns: copy_strings(&f.patterns),
        suffixes: copy_strings(&f.suffixes),
    }
}

} // verus!
