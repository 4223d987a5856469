//! Character-level helpers shared by the parsers and formatters of the crate.
use vstd::prelude::*;

verus! {

/// The characters of `s`, in order.
pub fn chars_of(s: &str) -> (v: Vec<char>)
    ensures
        v@ == s@,
{
    let mut v: Vec<char> = Vec::new();
    for c in it: s.chars()
        invariant
            v@ == it.seq().take(it.index() as int),
    {
        v.push(c);
    }
    v
}

/// Calls `String::push`: appends one character.
#[verifier::external_body]
pub fn push_char(s: &mut String, c: char)
    ensures
        final(s)@ == old(s)@.push(c),
{
    s.push(c);
}

/// Unicode `White_Space`, the set that `char::is_whitespace` and `str::trim` use.
pub open spec fn is_white_space(c: char) -> bool {
    let n = c as u32;
    ||| 0x09 <= n <= 0x0d
    ||| n == 0x20
    ||| n == 0x85
    ||| n == 0xa0
    ||| n == 0x1680
    ||| 0x2000 <= n <= 0x200a
    ||| n == 0x2028
    ||| n == 0x2029
    ||| n == 0x202f
    ||| n == 0x205f
    ||| n == 0x3000
}

/// Whether `c` has the Unicode `White_Space` property.
pub fn white_space(c: char) -> (r: bool)
    ensures
        r == is_white_space(c),
{
    let n = c as u32;
    (0x09 <= n && n <= 0x0d) || n == 0x20 || n == 0x85 || n == 0xa0 || n == 0x1680 || (0x2000
        <= n && n <= 0x200a) || n == 0x2028 || n == 0x2029 || n == 0x202f || n == 0x205f || n
        == 0x3000
}

/// The kinds of characters that the line cleaning strips.
#[derive(Clone, Copy, PartialEq, Eq, Debug)]
pub enum CharClass {
    WhiteSpace,
    Comma,
    Quote,
}

pub open spec fn in_class(k: CharClass, c: char) -> bool {
    match k {
        CharClass::WhiteSpace => is_white_space(c),
        CharClass::Comma => c == ',',
        CharClass::Quote => c == '"',
    }
}

pub fn is_in_class(k: CharClass, c: char) -> (r: bool)
    ensures
        r == in_class(k, c),
{
    match k {
        CharClass::WhiteSpace => white_space(c),
        CharClass::Comma => c == ',',
        CharClass::Quote => c == '"',
    }
}

/// `s` without the leading characters of class `k`.
pub open spec fn trim_start_by(s: Seq<char>, k: CharClass) -> Seq<char>
    decreases s.len(),
{
    if s.len() > 0 && in_class(k, s[0]) {
        trim_start_by(s.drop_first(), k)
    } else {
        s
    }
}

/// `s` without the trailing characters of class `k`.
pub open spec fn trim_end_by(s: Seq<char>, k: CharClass) -> Seq<char>
    decreases s.len(),
{
    if s.len() > 0 && in_class(k, s.last()) {
        trim_end_by(s.drop_last(), k)
    } else {
        s
    }
}

/// `s` without the characters of class `k` at either end.
pub open spec fn trim_by(s: Seq<char>, k: CharClass) -> Seq<char> {
    trim_end_by(trim_start_by(s, k), k)
}

/// Moves `lo` past the characters of class `k` in `v[lo..hi]`.
pub fn trim_start_range(v: &Vec<char>, lo: usize, hi: usize, k: CharClass) -> (r: usize)
    requires
        lo <= hi <= v.len(),
    ensures
        lo <= r <= hi,
        v@.subrange(r as int, hi as int) == trim_start_by(v@.subrange(lo as int, hi as int), k),
{
    let mut i = lo;
    while i < hi && is_in_class(k, v[i])
        invariant
            lo <= i <= hi <= v.len(),
            trim_start_by(v@.subrange(i as int, hi as int), k) == trim_start_by(
                v@.subrange(lo as int, hi as int),
                k,
            ),
        decreases hi - i,
    {
        assert(v@.subrange(i as int, hi as int).drop_first() =~= v@.subrange(
            i + 1,
            hi as int,
        ));
        i = i + 1;
    }
    i
}

/// Moves `hi` back over the characters of class `k` in `v[lo..hi]`.
pub fn trim_end_range(v: &Vec<char>, lo: usize, hi: usize, k: CharClass) -> (r: usize)
    requires
        lo <= hi <= v.len(),
    ensures
        lo <= r <= hi,
        v@.subrange(lo as int, r as int) == trim_end_by(v@.subrange(lo as int, hi as int), k),
{
    let mut j = hi;
    while lo < j && is_in_class(k, v[j - 1])
        invariant
            lo <= j <= hi <= v.len(),
            trim_end_by(v@.subrange(lo as int, j as int), k) == trim_end_by(
                v@.subrange(lo as int, hi as int),
                k,
            ),
        decreases j - lo,
    {
        assert(v@.subrange(lo as int, j as int).drop_last() =~= v@.subrange(
            lo as int,
            j - 1,
        ));
        j = j - 1;
    }
    j
}

/// The range of `v[lo..hi]` that remains after trimming class `k` at both ends.
pub fn trim_range(v: &Vec<char>, lo: usize, hi: usize, k: CharClass) -> (r: (usize, usize))
    requires
        lo <= hi <= v.len(),
    ensures
        lo <= r.0 <= r.1 <= hi,
        v@.subrange(r.0 as int, r.1 as int) == trim_by(v@.subrange(lo as int, hi as int), k),
{
    let a = trim_start_range(v, lo, hi, k);
    let b = trim_end_range(v, a, hi, k);
    (a, b)
}

/// Index of the first `c` in `s` at or after `from`.
pub open spec fn find_from(s: Seq<char>, c: char, from: int) -> Option<int>
    decreases s.len() - from,
{
    if from < 0 || from >= s.len() {
        None
    } else if s[from] == c {
        Some(from)
    } else {
        find_from(s, c, from + 1)
    }
}

pub proof fn lemma_find_from_bounds(s: Seq<char>, c: char, from: int)
    ensures
        find_from(s, c, from) matches Some(i) ==> 0 <= from <= i < s.len() && s[i] == c,
    decreases s.len() - from,
{
    if 0 <= from < s.len() && s[from] != c {
        lemma_find_from_bounds(s, c, from + 1);
    }
}

/// The first `c` at or after `from` is at `i` when `s[i]` is `c` and nothing before it is.
pub proof fn lemma_find_from_first(s: Seq<char>, c: char, from: int, i: int)
    requires
        0 <= from <= i < s.len(),
        s[i] == c,
        forall|k: int| from <= k < i ==> s[k] != c,
    ensures
        find_from(s, c, from) == Some(i),
    decreases i - from,
{
    if from < i {
        lemma_find_from_first(s, c, from + 1, i);
    }
}

/// There is no `c` at or after `from` when no character from there on is `c`.
pub proof fn lemma_find_from_none(s: Seq<char>, c: char, from: int)
    requires
        0 <= from,
        forall|k: int| from <= k < s.len() ==> s[k] != c,
    ensures
        find_from(s, c, from) is None,
    decreases s.len() - from,
{
    if from < s.len() {
        lemma_find_from_none(s, c, from + 1);
    }
}

/// Searching `p + t` from inside `t` finds what searching `t` finds, shifted by `p`.
pub proof fn lemma_find_from_shift(p: Seq<char>, t: Seq<char>, c: char, k: int)
    requires
        0 <= k,
    ensures
        find_from(p + t, c, p.len() + k) == match find_from(t, c, k) {
            Some(i) => Some(i + p.len()),
            None => None::<int>,
        },
    decreases t.len() - k,
{
    if k < t.len() {
        assert((p + t)[p.len() + k] == t[k]);
        if t[k] != c {
            lemma_find_from_shift(p, t, c, k + 1);
        }
    }
}

/// Index of the first `c` in `v` at or after `from`.
pub fn find_char_from(v: &Vec<char>, c: char, from: usize) -> (r: Option<usize>)
    requires
        from <= v.len(),
    ensures
        r matches Some(i) ==> find_from(v@, c, from as int) == Some(i as int),
        r is None ==> find_from(v@, c, from as int) is None,
{
    let mut i = from;
    while i < v.len()
        invariant
            from <= i <= v.len(),
            find_from(v@, c, i as int) == find_from(v@, c, from as int),
        decreases v.len() - i,
    {
        if v[i] == c {
            return Some(i);
        }
        i = i + 1;
    }
    None
}

/// Whether `s` begins with "zh" in either letter case: the test that
/// `to_lowercase()` followed by `starts_with("zh")` makes, since only `Z` and `z`
/// lower-case to `z` and only `H` and `h` to `h`.
pub open spec fn starts_with_zh(s: Seq<char>) -> bool {
    &&& s.len() >= 2
    &&& (s[0] == 'z' || s[0] == 'Z')
    &&& (s[1] == 'h' || s[1] == 'H')
}

/// Whether `v[lo..hi]` begins with "zh" in either letter case.
pub fn range_starts_with_zh(v: &Vec<char>, lo: usize, hi: usize) -> (r: bool)
    requires
        lo <= hi <= v.len(),
    ensures
        r == starts_with_zh(v@.subrange(lo as int, hi as int)),
{
    hi - lo >= 2 && (v[lo] == 'z' || v[lo] == 'Z') && (v[lo + 1] == 'h' || v[lo + 1] == 'H')
}

} // verus!
