//! Character-level scanning helpers shared by the parser and the command
//! layer: stop-character classes, a verified left-to-right scan, string
//! equality, and whitespace splitting.

use vstd::prelude::*;

verus! {

/// The classes of stop characters at which the scanner halts.
#[derive(Clone, Copy, Debug)]
pub enum StopKind {
    /// A tag key ends at `=`, `;` or space.
    TagKey,
    /// A tag value ends at `;` or space.
    TagValue,
    /// A prefix name ends at space, `!` or `@`.
    PrefixName,
    /// A prefix user ends at space or `@`.
    PrefixUser,
    /// A token that ends at a space alone.
    SpaceOnly,
    /// A word of a name list ends at any whitespace.
    Whitespace,
}

/// The set of characters a stop class contains.
pub open spec fn stop_set(kind: StopKind) -> Set<char> {
    match kind {
        StopKind::TagKey => set!['=', ';', ' '],
        StopKind::TagValue => set![';', ' '],
        StopKind::PrefixName => set![' ', '!', '@'],
        StopKind::PrefixUser => set![' ', '@'],
        StopKind::SpaceOnly => set![' '],
        StopKind::Whitespace => set![' ', '\t', '\r', '\n'],
    }
}

/// Whether `c` belongs to the stop class `kind`.
pub fn is_stop(c: char, kind: StopKind) -> (r: bool)
    ensures
        r == stop_set(kind).contains(c),
{
    match kind {
        StopKind::TagKey => c == '=' || c == ';' || c == ' ',
        StopKind::TagValue => c == ';' || c == ' ',
        StopKind::PrefixName => c == ' ' || c == '!' || c == '@',
        StopKind::PrefixUser => c == ' ' || c == '@',
        StopKind::SpaceOnly => c == ' ',
        StopKind::Whitespace => c == ' ' || c == '\t' || c == '\r' || c == '\n',
    }
}

/// The first position at or after `i` holding a character of `stops`, or
/// the length of `s` when no such position exists.
pub open spec fn scan_end(s: Seq<char>, i: int, stops: Set<char>) -> int
    decreases s.len() - i,
{
    if i < 0 || i >= s.len() {
        s.len() as int
    } else if stops.contains(s[i]) {
        i
    } else {
        scan_end(s, i + 1, stops)
    }
}

/// The defining properties of `scan_end`: it lies between `i` and the end
/// of `s`, it lands on a stop character unless it reaches the end, and no
/// stop character occurs before it.
pub proof fn lemma_scan_end(s: Seq<char>, i: int, stops: Set<char>)
    requires
        0 <= i <= s.len(),
    ensures
        i <= scan_end(s, i, stops) <= s.len(),
        scan_end(s, i, stops) < s.len() ==> stops.contains(s[scan_end(s, i, stops)]),
        forall|j: int| i <= j < scan_end(s, i, stops) ==> !stops.contains(s[j]),
    decreases s.len() - i,
{
    if i < s.len() && !stops.contains(s[i]) {
        lemma_scan_end(s, i + 1, stops);
    }
}

/// Scans `cs` from `from` for the first character of the class `kind`.
pub fn scan(cs: &Vec<char>, from: usize, kind: StopKind) -> (r: usize)
    requires
        from <= cs.len(),
    ensures
        r as int == scan_end(cs@, from as int, stop_set(kind)),
        from <= r <= cs.len(),
        r < cs.len() ==> stop_set(kind).contains(cs@[r as int]),
        forall|j: int| from <= j < r ==> !stop_set(kind).contains(cs@[j]),
{
    let mut i: usize = from;
    loop
        invariant
            from <= i <= cs.len(),
            scan_end(cs@, from as int, stop_set(kind)) == scan_end(cs@, i as int, stop_set(kind)),
            forall|j: int| from <= j < i ==> !stop_set(kind).contains(cs@[j]),
        decreases cs.len() - i,
    {
        if i >= cs.len() {
            return i;
        }
        if is_stop(cs[i], kind) {
            return i;
        }
        i = i + 1;
    }
}

/// The characters of `s`, in order, as a vector.
pub fn chars_of(s: &str) -> (r: Vec<char>)
    ensures
        r@ == s@,
{
    let n = s.unicode_len();
    let mut r: Vec<char> = Vec::new();
    let mut i: usize = 0;
    while i < n
        invariant
            i <= n,
            n == s@.len(),
            r@ == s@.subrange(0, i as int),
        decreases n - i,
    {
        r.push(s.get_char(i));
        proof {
            assert(s@.subrange(0, i + 1 as int) =~= s@.subrange(0, i as int).push(s@[i as int]));
        }
        i = i + 1;
    }
    proof {
        assert(r@ =~= s@);
    }
    r
}

/// Whether two string slices hold the same characters.
pub fn str_eq(a: &str, b: &str) -> (r: bool)
    ensures
        r == (a@ == b@),
{
    let na = a.unicode_len();
    let nb = b.unicode_len();
    if na != nb {
        return false;
    }
    let mut i: usize = 0;
    while i < na
        invariant
            i <= na,
            na == a@.len(),
            nb == b@.len(),
            na == nb,
            forall|j: int| 0 <= j < i ==> a@[j] == b@[j],
        decreases na - i,
    {
        if a.get_char(i) != b.get_char(i) {
            return false;
        }
        i = i + 1;
    }
    proof {
        assert(a@ =~= b@);
    }
    true
}

/// The whitespace-separated words of `s` from position `i` on: maximal
/// runs of non-whitespace characters, in order, with no empty entries.
pub open spec fn spec_split_ws(s: Seq<char>, i: int) -> Seq<Seq<char>>
    decreases s.len() - i,
{
    if i < 0 || i >= s.len() {
        Seq::empty()
    } else if stop_set(StopKind::Whitespace).contains(s[i]) {
        spec_split_ws(s, i + 1)
    } else {
        let e = scan_end(s, i, stop_set(StopKind::Whitespace));
        proof {
            lemma_scan_end(s, i + 1, stop_set(StopKind::Whitespace));
        }
        seq![s.subrange(i, e)] + spec_split_ws(s, e)
    }
}

/// Splits `s` at whitespace, dropping the separators; words keep their
/// order and no empty words are produced.
pub fn split_words(s: &str) -> (r: Vec<String>)
    ensures
        r.deep_view() == spec_split_ws(s@, 0),
{
    let cs = chars_of(s);
    let n = cs.len();
    let mut r: Vec<String> = Vec::new();
    let mut i: usize = 0;
    while i < n
        invariant
            i <= n,
            n == cs.len(),
            cs@ == s@,
            spec_split_ws(s@, 0) == r.deep_view() + spec_split_ws(s@, i as int),
        decreases n - i,
    {
        if is_stop(cs[i], StopKind::Whitespace) {
            i = i + 1;
        } else {
            let e = scan(&cs, i, StopKind::Whitespace);
            let w = String::from_str(s.substring_char(i, e));
            proof {
                lemma_scan_end(s@, i as int, stop_set(StopKind::Whitespace));
                assert(spec_split_ws(s@, i as int) =~= seq![s@.subrange(i as int, e as int)]
                    + spec_split_ws(s@, e as int));
            }
            let ghost prev = r.deep_view();
            r.push(w);
            proof {
                assert(r.deep_view() =~= prev.push(w@));
                assert(r.deep_view() + spec_split_ws(s@, e as int) =~= prev + spec_split_ws(
                    s@,
                    i as int,
                ));
            }
            i = e;
        }
    }
    proof {
        assert(r.deep_view() + spec_split_ws(s@, n as int) =~= r.deep_view());
    }
    r
}

} // verus!
