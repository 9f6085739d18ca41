//! Character-level text helpers: ASCII case folding, Unicode white-space
//! trimming and case-insensitive matching, each with its specification.

use vstd::prelude::*;

verus! {

broadcast use vstd::string::group_string_axioms;

/// The characters of `s`, in order.
pub fn chars_of(s: &str) -> (v: Vec<char>)
    ensures
        v@ == s@,
{
    let mut v: Vec<char> = Vec::new();
    for c in it: s.chars()
        invariant
            v@ == it.seq().take(it.index() as int),
            it.seq() == s@,
    {
        v.push(c);
    }
    v
}

/// ASCII upper-case letters map to their lower-case form; every other character is kept.
pub open spec fn lower_char(c: char) -> char {
    if 'A' <= c && c <= 'Z' {
        ((c as u32) + 32) as char
    } else {
        c
    }
}

/// A text with every ASCII upper-case letter made lower-case.
pub open spec fn lower(s: Seq<char>) -> Seq<char> {
    s.map_values(|c: char| lower_char(c))
}

/// Whether `needle` occurs in `hay` as a contiguous run of characters.
pub open spec fn occurs_in(needle: Seq<char>, hay: Seq<char>) -> bool {
    exists|i: int|
        0 <= i && i + needle.len() <= hay.len() && #[trigger] hay.subrange(i, i + needle.len())
            == needle
}

/// The Unicode `White_Space` property, which `char::is_whitespace` tests.
pub open spec fn is_white_space(c: char) -> bool {
    ||| ('\u{9}' <= c && c <= '\u{d}')
    ||| c == ' '
    ||| c == '\u{85}'
    ||| c == '\u{a0}'
    ||| c == '\u{1680}'
    ||| ('\u{2000}' <= c && c <= '\u{200a}')
    ||| c == '\u{2028}'
    ||| c == '\u{2029}'
    ||| c == '\u{202f}'
    ||| c == '\u{205f}'
    ||| c == '\u{3000}'
}

/// `s` without its leading white space.
pub open spec fn trim_start(s: Seq<char>) -> Seq<char>
    decreases s.len(),
{
    if s.len() > 0 && is_white_space(s[0]) {
        trim_start(s.drop_first())
    } else {
        s
    }
}

/// `s` without its trailing white space.
pub open spec fn trim_end(s: Seq<char>) -> Seq<char>
    decreases s.len(),
{
    if s.len() > 0 && is_white_space(s.last()) {
        trim_end(s.drop_last())
    } else {
        s
    }
}

/// `s` without leading and trailing white space, as `str::trim` gives it.
pub open spec fn trim(s: Seq<char>) -> Seq<char> {
    trim_end(trim_start(s))
}

/// Whether every character of `s` is white space.
pub open spec fn all_white_space(s: Seq<char>) -> bool {
    forall|i: int| 0 <= i < s.len() ==> is_white_space(#[trigger] s[i])
}

/// Leading white space does not change what `trim_start` leaves.
pub proof fn lemma_trim_start_skips_white_prefix(a: Seq<char>, s: Seq<char>)
    requires
        all_white_space(a),
    ensures
        trim_start(a + s) == trim_start(s),
    decreases a.len(),
{
    if a.len() > 0 {
        assert((a + s)[0] == a[0]);
        assert((a + s).drop_first() =~= a.drop_first() + s);
        lemma_trim_start_skips_white_prefix(a.drop_first(), s);
    } else {
        assert(a + s =~= s);
    }
}

/// Trailing white space does not change what `trim_end` leaves.
pub proof fn lemma_trim_end_skips_white_suffix(x: Seq<char>, b: Seq<char>)
    requires
        all_white_space(b),
    ensures
        trim_end(x + b) == trim_end(x),
    decreases b.len(),
{
    if b.len() > 0 {
        assert((x + b).last() == b.last());
        assert((x + b).drop_last() =~= x + b.drop_last());
        lemma_trim_end_skips_white_suffix(x, b.drop_last());
    } else {
        assert(x + b =~= x);
    }
}

/// A text of white space only trims to nothing.
pub proof fn lemma_trim_start_all_white(s: Seq<char>)
    requires
        all_white_space(s),
    ensures
        trim_start(s) == Seq::<char>::empty(),
    decreases s.len(),
{
    if s.len() > 0 {
        lemma_trim_start_all_white(s.drop_first());
    } else {
        assert(s =~= Seq::<char>::empty());
    }
}

/// What follows a text that is not all white space survives `trim_start`.
pub proof fn lemma_trim_start_append(s: Seq<char>, b: Seq<char>)
    requires
        !all_white_space(s),
    ensures
        trim_start(s + b) == trim_start(s) + b,
    decreases s.len(),
{
    assert((s + b)[0] == s[0]);
    if is_white_space(s[0]) {
        assert((s + b).drop_first() =~= s.drop_first() + b);
        assert(!all_white_space(s.drop_first())) by {
            let k = choose|k: int| 0 <= k < s.len() && !is_white_space(#[trigger] s[k]);
            assert(s.drop_first()[k - 1] == s[k]);
        }
        lemma_trim_start_append(s.drop_first(), b);
    }
}

/// White space around a text does not change what `trim` leaves.
pub proof fn lemma_trim_surrounded(pre: Seq<char>, s: Seq<char>, post: Seq<char>)
    requires
        all_white_space(pre),
        all_white_space(post),
    ensures
        trim(pre + s + post) == trim(s),
{
    assert(pre + s + post =~= pre + (s + post));
    lemma_trim_start_skips_white_prefix(pre, s + post);
    if all_white_space(s) {
        assert(all_white_space(s + post));
        lemma_trim_start_all_white(s + post);
        lemma_trim_start_all_white(s);
    } else {
        lemma_trim_start_append(s, post);
        lemma_trim_end_skips_white_suffix(trim_start(s), post);
    }
}

/// ASCII case folding keeps white space white space and everything else not.
pub proof fn lemma_lower_char_white_space(c: char)
    ensures
        is_white_space(lower_char(c)) == is_white_space(c),
{
}

/// Case folding commutes with `trim`.
pub proof fn lemma_lower_trim(s: Seq<char>)
    ensures
        lower(trim(s)) == trim(lower(s)),
{
    lemma_lower_trim_start(s);
    lemma_lower_trim_end(trim_start(s));
}

proof fn lemma_lower_trim_start(s: Seq<char>)
    ensures
        lower(trim_start(s)) == trim_start(lower(s)),
    decreases s.len(),
{
    if s.len() > 0 {
        lemma_lower_char_white_space(s[0]);
        assert(lower(s)[0] == lower_char(s[0]));
        assert(lower(s).drop_first() =~= lower(s.drop_first()));
        lemma_lower_trim_start(s.drop_first());
    } else {
        assert(lower(s) =~= s);
    }
}

proof fn lemma_lower_trim_end(s: Seq<char>)
    ensures
        lower(trim_end(s)) == trim_end(lower(s)),
    decreases s.len(),
{
    if s.len() > 0 {
        lemma_lower_char_white_space(s.last());
        assert(lower(s).last() == lower_char(s.last()));
        assert(lower(s).drop_last() =~= lower(s.drop_last()));
        lemma_lower_trim_end(s.drop_last());
    } else {
        assert(lower(s) =~= s);
    }
}

pub fn ascii_lower(c: char) -> (r: char)
    ensures
        r == lower_char(c),
{
    if 'A' <= c && c <= 'Z' {
        ((c as u8) + 32) as char
    } else {
        c
    }
}

pub fn white_space(c: char) -> (r: bool)
    ensures
        r == is_white_space(c),
{
    ('\u{9}' <= c && c <= '\u{d}') || c == ' ' || c == '\u{85}' || c == '\u{a0}' || c
        == '\u{1680}' || ('\u{2000}' <= c && c <= '\u{200a}') || c == '\u{2028}' || c
        == '\u{2029}' || c == '\u{202f}' || c == '\u{205f}' || c == '\u{3000}'
}

/// The bounds `(lo, hi)` of the trimmed part of `v`.
pub fn trim_bounds(v: &Vec<char>) -> (r: (usize, usize))
    ensures
        r.0 <= r.1 <= v@.len(),
        v@.subrange(r.0 as int, r.1 as int) == trim(v@),
{
    let n = v.len();
    let mut lo: usize = 0;
    assert(v@.subrange(0, n as int) =~= v@);
    while lo < n && white_space(v[lo])
        invariant
            lo <= n == v@.len(),
            trim_start(v@) == trim_start(v@.subrange(lo as int, n as int)),
        decreases n - lo,
    {
        assert(v@.subrange(lo as int, n as int).drop_first() =~= v@.subrange(
            lo + 1,
            n as int,
        ));
        lo = lo + 1;
    }
    assert(trim_start(v@) == v@.subrange(lo as int, n as int));
    let mut hi: usize = n;
    while hi > lo && white_space(v[hi - 1])
        invariant
            lo <= hi <= n == v@.len(),
            trim(v@) == trim_end(v@.subrange(lo as int, hi as int)),
        decreases hi,
    {
        assert(v@.subrange(lo as int, hi as int).drop_last() =~= v@.subrange(
            lo as int,
            hi - 1,
        ));
        hi = hi - 1;
    }
    (lo, hi)
}

/// Whether the characters `v[lo..hi]` equal `kw`, ignoring ASCII case.
pub fn eq_ignore_ascii_case_at(v: &Vec<char>, lo: usize, hi: usize, kw: &str) -> (r: bool)
    requires
        lo <= hi <= v@.len(),
    ensures
        r == (lower(v@.subrange(lo as int, hi as int)) == lower(kw@)),
{
    let k = chars_of(kw);
    if hi - lo != k.len() {
        assert(lower(v@.subrange(lo as int, hi as int)).len() != lower(kw@).len());
        return false;
    }
    let mut i: usize = 0;
    while i < k.len()
        invariant
            i <= k@.len() == hi - lo,
            lo <= hi <= v@.len(),
            k@ == kw@,
            forall|j: int| 0 <= j < i ==> lower_char(v@[lo + j]) == lower_char(k@[j]),
        decreases k@.len() - i,
    {
        if ascii_lower(v[lo + i]) != ascii_lower(k[i]) {
            assert(lower(v@.subrange(lo as int, hi as int))[i as int] != lower(kw@)[i as int]);
            return false;
        }
        i = i + 1;
    }
    assert(lower(v@.subrange(lo as int, hi as int)) =~= lower(kw@));
    true
}

/// Whether `needle` occurs in `hay` once both are ASCII lower-cased.
pub fn contains_ignore_ascii_case(hay: &str, needle: &str) -> (r: bool)
    ensures
        r == occurs_in(lower(needle@), lower(hay@)),
{
    let h = chars_of(hay);
    let nd = chars_of(needle);
    let ghost lh = lower(h@);
    let ghost ln = lower(nd@);
    if nd.len() > h.len() {
        return false;
    }
    if nd.len() == 0 {
        assert(lh.subrange(0, 0int + ln.len()) =~= ln);
        return true;
    }
    let last = h.len() - nd.len();
    let mut i: usize = 0;
    while i <= last
        invariant
            h@ == hay@,
            nd@ == needle@,
            lh == lower(h@),
            ln == lower(nd@),
            last + nd@.len() == h@.len(),
            nd@.len() > 0,
            i <= last + 1,
            forall|p: int| 0 <= p < i ==> #[trigger] lh.subrange(p, p + ln.len()) != ln,
        decreases last + 1 - i,
    {
        let mut j: usize = 0;
        let mut same = true;
        while j < nd.len()
            invariant
                h@ == hay@,
                nd@ == needle@,
                i <= last,
                last + nd@.len() == h@.len(),
                h@.len() == h.len(),
                j <= nd@.len(),
                same == (forall|q: int| 0 <= q < j ==> lower_char(h@[i + q]) == lower_char(nd@[q])),
            decreases nd@.len() - j,
        {
            if ascii_lower(h[i + j]) != ascii_lower(nd[j]) {
                same = false;
            }
            j = j + 1;
        }
        if same {
            assert(lh.subrange(i as int, i + ln.len()) =~= ln);
            return true;
        }
        proof {
            let bad = choose|q: int| 0 <= q < nd@.len() && lower_char(h@[i + q]) != lower_char(nd@[q]);
            assert(lh.subrange(i as int, i + ln.len())[bad] != ln[bad]);
        }
        i = i + 1;
    }
    assert forall|p: int| 0 <= p && p + ln.len() <= lh.len() implies #[trigger] lh.subrange(
        p,
        p + ln.len(),
    ) != ln by {}
    false
}

} // verus!
