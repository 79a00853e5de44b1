//! The order in which a directory's entries are shown.
use vstd::prelude::*;

use crate::entry::{is_dir, DirectoryEntry};
use crate::text::{
    compare_strings, invert_spec, lemma_lex_cmp_antisymmetric, lemma_lex_cmp_transitive, lex_cmp,
    SortOrder,
};

verus! {

/// What entries are sorted by.
#[derive(Clone, Copy, Debug, PartialEq, Eq, Structural)]
pub enum SortMode {
    DisplayName,
    ModificationTime,
}

/// The criterion together with its two flags.
#[derive(Clone, Copy, Debug, PartialEq, Eq, Structural)]
pub struct SortSettings {
    pub mode: SortMode,
    pub reversed: bool,
    pub directories_first: bool,
}

/// `o` as it stands, or inverted when `reversed` is set.
pub open spec fn directed(o: SortOrder, reversed: bool) -> SortOrder {
    if reversed {
        invert_spec(o)
    } else {
        o
    }
}

/// Order of two integers.
pub open spec fn int_cmp(a: int, b: int) -> SortOrder {
    if a < b {
        SortOrder::Smaller
    } else if a > b {
        SortOrder::Larger
    } else {
        SortOrder::Equal
    }
}

/// Order of two optional timestamps: an unknown time comes before any known one.
pub open spec fn time_cmp(a: Option<i64>, b: Option<i64>) -> SortOrder {
    match (a, b) {
        (None, None) => SortOrder::Equal,
        (None, Some(_)) => SortOrder::Smaller,
        (Some(_), None) => SortOrder::Larger,
        (Some(x), Some(y)) => int_cmp(x as int, y as int),
    }
}

/// Order of two entries under the criterion alone.
pub open spec fn criterion_cmp(mode: SortMode, a: DirectoryEntry, b: DirectoryEntry) -> SortOrder {
    match mode {
        SortMode::DisplayName => lex_cmp(a.display_name@, b.display_name@),
        SortMode::ModificationTime => time_cmp(a.modified, b.modified),
    }
}

/// Order of two entries under the full settings: directories before files
/// when asked, else the criterion, inverted when reversed.
pub open spec fn entry_order(s: SortSettings, a: DirectoryEntry, b: DirectoryEntry) -> SortOrder {
    if s.directories_first && is_dir(a) && !is_dir(b) {
        SortOrder::Smaller
    } else if s.directories_first && is_dir(b) && !is_dir(a) {
        SortOrder::Larger
    } else {
        directed(criterion_cmp(s.mode, a, b), s.reversed)
    }
}

/// The settings with the reversed flag flipped.
pub open spec fn flip_reversed(s: SortSettings) -> SortSettings {
    SortSettings { reversed: !s.reversed, ..s }
}

fn directed_order(o: SortOrder, reversed: bool) -> (r: SortOrder)
    ensures
        r == directed(o, reversed),
{
    if reversed {
        o.invert()
    } else {
        o
    }
}

/// Compares two entries by display name.
pub fn sort_by_name(a: &DirectoryEntry, b: &DirectoryEntry, reversed: bool) -> (r: SortOrder)
    ensures
        r == directed(lex_cmp(a.display_name@, b.display_name@), reversed),
{
    directed_order(compare_strings(a.display_name.as_str(), b.display_name.as_str()), reversed)
}

/// Compares two entries by modification time.
pub fn sort_by_modification_time(a: &DirectoryEntry, b: &DirectoryEntry, reversed: bool) -> (r:
    SortOrder)
    ensures
        r == directed(time_cmp(a.modified, b.modified), reversed),
{
    let o = match (a.modified, b.modified) {
        (None, None) => SortOrder::Equal,
        (None, Some(_)) => SortOrder::Smaller,
        (Some(_), None) => SortOrder::Larger,
        (Some(x), Some(y)) => {
            if x < y {
                SortOrder::Smaller
            } else if x > y {
                SortOrder::Larger
            } else {
                SortOrder::Equal
            }
        },
    };
    directed_order(o, reversed)
}

/// Compares two entries under the given settings.
pub fn compare_entries(s: SortSettings, a: &DirectoryEntry, b: &DirectoryEntry) -> (r: SortOrder)
    ensures
        r == entry_order(s, *a, *b),
{
    if s.directories_first {
        let dir_a = a.is_directory();
        let dir_b = b.is_directory();
        if dir_a && !dir_b {
            return SortOrder::Smaller;
        }
        if dir_b && !dir_a {
            return SortOrder::Larger;
        }
    }
    match s.mode {
        SortMode::DisplayName => sort_by_name(a, b, s.reversed),
        SortMode::ModificationTime => sort_by_modification_time(a, b, s.reversed),
    }
}

/// With directories first, a directory comes before a file whatever the
/// criterion and the reversed flag.
pub proof fn lemma_directories_first(s: SortSettings, d: DirectoryEntry, f: DirectoryEntry)
    requires
        s.directories_first,
        is_dir(d),
        !is_dir(f),
    ensures
        entry_order(s, d, f) == SortOrder::Smaller,
        entry_order(s, f, d) == SortOrder::Larger,
{
}

/// Comparing two entries the other way round gives the inverted order.
pub proof fn lemma_entry_order_antisymmetric(s: SortSettings, a: DirectoryEntry, b: DirectoryEntry)
    ensures
        entry_order(s, b, a) == invert_spec(entry_order(s, a, b)),
{
    lemma_lex_cmp_antisymmetric(a.display_name@, b.display_name@);
}

/// The order of entries is transitive: `a` before `b` and `b` before `c`
/// puts `a` before `c`, and likewise for after.
pub proof fn lemma_entry_order_transitive(
    s: SortSettings,
    a: DirectoryEntry,
    b: DirectoryEntry,
    c: DirectoryEntry,
    o: SortOrder,
)
    requires
        o != SortOrder::Equal,
        entry_order(s, a, b) == o,
        entry_order(s, b, c) == o,
    ensures
        entry_order(s, a, c) == o,
{
    let d = if s.reversed {
        invert_spec(o)
    } else {
        o
    };
    if s.mode == SortMode::DisplayName {
        if criterion_cmp(s.mode, a, b) == d && criterion_cmp(s.mode, b, c) == d {
            lemma_lex_cmp_transitive(a.display_name@, b.display_name@, c.display_name@, d);
        }
    }
}

/// Flipping the reversed flag inverts the order of every two entries that
/// directories-first does not already decide.
pub proof fn lemma_reversed_inverts(s: SortSettings, a: DirectoryEntry, b: DirectoryEntry)
    requires
        !s.directories_first || is_dir(a) == is_dir(b),
    ensures
        entry_order(flip_reversed(s), a, b) == invert_spec(entry_order(s, a, b)),
{
}

/// Reversing twice gives back the same order of every two entries.
pub proof fn lemma_reverse_twice(s: SortSettings, a: DirectoryEntry, b: DirectoryEntry)
    ensures
        flip_reversed(flip_reversed(s)) == s,
        entry_order(flip_reversed(flip_reversed(s)), a, b) == entry_order(s, a, b),
        invert_spec(invert_spec(entry_order(s, a, b))) == entry_order(s, a, b),
{
}

} // verus!
