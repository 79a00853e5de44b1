//! Character-level helpers on strings, stated over their `Seq<char>` views.
use vstd::prelude::*;
use vstd::std_specs::iter::IteratorSpec;

verus! {

/// The order of two values: below, level with, or above.
#[derive(Clone, Copy, Debug, PartialEq, Eq, Structural)]
pub enum SortOrder {
    Smaller,
    Equal,
    Larger,
}

/// The same comparison seen from the other side.
pub open spec fn invert_spec(o: SortOrder) -> SortOrder {
    match o {
        SortOrder::Smaller => SortOrder::Larger,
        SortOrder::Equal => SortOrder::Equal,
        SortOrder::Larger => SortOrder::Smaller,
    }
}

impl SortOrder {
    /// Swaps `Smaller` and `Larger`, keeps `Equal`.
    pub fn invert(self) -> (r: SortOrder)
        ensures
            r == invert_spec(self),
    {
        match self {
            SortOrder::Smaller => SortOrder::Larger,
            SortOrder::Equal => SortOrder::Equal,
            SortOrder::Larger => SortOrder::Smaller,
        }
    }
}

/// Lexicographic order of two character sequences, characters compared by
/// their scalar values.
pub open spec fn lex_cmp(a: Seq<char>, b: Seq<char>) -> SortOrder
    decreases a.len(),
{
    if a.len() == 0 {
        if b.len() == 0 {
            SortOrder::Equal
        } else {
            SortOrder::Smaller
        }
    } else if b.len() == 0 {
        SortOrder::Larger
    } else if (a[0]) < (b[0]) {
        SortOrder::Smaller
    } else if (a[0]) > (b[0]) {
        SortOrder::Larger
    } else {
        lex_cmp(a.drop_first(), b.drop_first())
    }
}

/// Comparing the other way round gives the inverted order.
pub proof fn lemma_lex_cmp_antisymmetric(a: Seq<char>, b: Seq<char>)
    ensures
        lex_cmp(b, a) == invert_spec(lex_cmp(a, b)),
    decreases a.len(),
{
    if a.len() > 0 && b.len() > 0 && a[0] == b[0] {
        lemma_lex_cmp_antisymmetric(a.drop_first(), b.drop_first());
    }
}

/// `Equal` holds of equal sequences only.
pub proof fn lemma_lex_cmp_equal(a: Seq<char>, b: Seq<char>)
    ensures
        lex_cmp(a, b) == SortOrder::Equal <==> a == b,
    decreases a.len(),
{
    if a.len() > 0 && b.len() > 0 && a[0] == b[0] {
        lemma_lex_cmp_equal(a.drop_first(), b.drop_first());
        if a.drop_first() == b.drop_first() {
            assert(a =~= seq![a[0]] + a.drop_first());
            assert(b =~= seq![b[0]] + b.drop_first());
        }
    }
    if a == b && a.len() > 0 {
        lemma_lex_cmp_equal(a.drop_first(), b.drop_first());
    }
    if a.len() == 0 && b.len() == 0 {
        assert(a =~= b);
    }
}

/// Lexicographic order is transitive.
pub proof fn lemma_lex_cmp_transitive(a: Seq<char>, b: Seq<char>, c: Seq<char>, o: SortOrder)
    requires
        o != SortOrder::Equal,
        lex_cmp(a, b) == o,
        lex_cmp(b, c) == o,
    ensures
        lex_cmp(a, c) == o,
    decreases a.len(),
{
    if a.len() > 0 && b.len() > 0 && c.len() > 0 && a[0] == b[0] && b[0]
        == c[0] {
        lemma_lex_cmp_transitive(a.drop_first(), b.drop_first(), c.drop_first(), o);
    }
}

/// The characters of `s`, in order.
pub fn chars_of(s: &str) -> (r: Vec<char>)
    ensures
        r@ == s@,
{
    broadcast use vstd::string::group_string_axioms;

    let mut it = s.chars();
    let mut out: Vec<char> = Vec::new();
    loop
        invariant
            out@ + it.remaining() == s@,
            it.decrease() is Some,
        decreases it.decrease()->0,
    {
        match it.next() {
            Some(c) => {
                out.push(c);
                assert(out@ + it.remaining() =~= s@);
            },
            None => {
                assert(out@ =~= s@);
                return out;
            },
        }
    }
}

/// Whether `p` is a prefix of `s`.
pub fn has_prefix(s: &str, p: &str) -> (r: bool)
    ensures
        r == p@.is_prefix_of(s@),
{
    let sc = chars_of(s);
    let pc = chars_of(p);
    if pc.len() > sc.len() {
        return false;
    }
    let mut i: usize = 0;
    while i < pc.len()
        invariant
            pc@ == p@,
            sc@ == s@,
            pc.len() <= sc.len(),
            i <= pc.len(),
            forall|j: int| 0 <= j < i ==> pc@[j] == sc@[j],
        decreases pc.len() - i,
    {
        if pc[i] != sc[i] {
            return false;
        }
        i = i + 1;
    }
    assert(pc@ =~= sc@.subrange(0, pc@.len() as int));
    true
}

/// Lexicographic comparison of two strings by characters.
pub fn compare_strings(a: &str, b: &str) -> (r: SortOrder)
    ensures
        r == lex_cmp(a@, b@),
{
    let ac = chars_of(a);
    let bc = chars_of(b);
    let mut i: usize = 0;
    assert(a@.subrange(0, a@.len() as int) =~= a@);
    assert(b@.subrange(0, b@.len() as int) =~= b@);
    while i < ac.len() && i < bc.len()
        invariant
            ac@ == a@,
            bc@ == b@,
            i <= ac.len(),
            i <= bc.len(),
            lex_cmp(a@, b@) == lex_cmp(a@.subrange(i as int, a@.len() as int), b@.subrange(i as int, b@.len() as int)),
        decreases ac.len() - i,
    {
        let x = ac[i];
        let y = bc[i];
        if x < y {
            return SortOrder::Smaller;
        } else if x > y {
            return SortOrder::Larger;
        }
        proof {
            let sa = a@.subrange(i as int, a@.len() as int);
            let sb = b@.subrange(i as int, b@.len() as int);
            assert(sa.drop_first() =~= a@.subrange(i + 1, a@.len() as int));
            assert(sb.drop_first() =~= b@.subrange(i + 1, b@.len() as int));
        }
        i = i + 1;
    }
    if ac.len() == bc.len() {
        SortOrder::Equal
    } else if i == ac.len() {
        SortOrder::Smaller
    } else {
        SortOrder::Larger
    }
}


/// Whether two strings hold the same characters.
pub fn strings_equal(a: &str, b: &str) -> (r: bool)
    ensures
        r == (a@ == b@),
{
    proof {
        lemma_lex_cmp_equal(a@, b@);
    }
    compare_strings(a, b) == SortOrder::Equal
}

/// What `str::trim` leaves of a string.
pub uninterp spec fn trimmed_of(s: Seq<char>) -> Seq<char>;

/// What `str::to_lowercase` makes of a string.
pub uninterp spec fn lower_of(s: Seq<char>) -> Seq<char>;

/// Relies on `str::trim`: the string without leading and trailing white
/// space, which depends on the characters alone.
#[verifier::external_body]
pub(crate) fn trim(s: &str) -> (r: &str)
    ensures
        r@ == trimmed_of(s@),
{
    s.trim()
}

/// Relies on `str::to_lowercase`: the lowercase mapping of each character,
/// which depends on the characters alone.
#[verifier::external_body]
pub(crate) fn to_lower(s: &str) -> (r: String)
    ensures
        r@ == lower_of(s@),
{
    s.to_lowercase()
}

/// The form in which names and search terms are compared: trimmed, then
/// lowercased.
pub open spec fn folded(s: Seq<char>) -> Seq<char> {
    lower_of(trimmed_of(s))
}

/// Trims `s`, then lowercases it.
pub fn fold(s: &str) -> (r: String)
    ensures
        r@ == folded(s@),
{
    to_lower(trim(s))
}

} // verus!
