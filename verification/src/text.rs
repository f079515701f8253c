//! Text as a sequence of characters: comparison, bounded search, trimming.

use vstd::prelude::*;

verus! {

/// The characters of `s`, in order.
pub fn chars_of(s: &str) -> (chars: Vec<char>)
    ensures
        chars@ == s@,
{
    let mut chars: Vec<char> = Vec::new();
    for c in it: s.chars()
        invariant
            it.seq() == s@,
            chars@ == it.seq().take(it.index() as int),
    {
        chars.push(c);
    }
    chars
}

/// Whether `a` and `b` hold the same characters. Case matters.
pub fn str_eq(a: &str, b: &str) -> (same: bool)
    ensures
        same == (a@ == b@),
{
    let x = a.to_owned();
    let y = b.to_owned();
    x == y
}

/// Whether `needle` stands in `hay` at index `at`.
pub open spec fn is_match_at(hay: Seq<char>, needle: Seq<char>, at: int) -> bool {
    &&& 0 <= at
    &&& at + needle.len() <= hay.len()
    &&& hay.subrange(at, at + needle.len()) == needle
}

/// The first index at or after `from` at which `needle` stands in `hay`.
pub open spec fn find_from(hay: Seq<char>, needle: Seq<char>, from: int) -> Option<int>
    decreases hay.len() - from,
{
    if from < 0 || from + needle.len() > hay.len() {
        None
    } else if is_match_at(hay, needle, from) {
        Some(from)
    } else {
        proof {
            if from >= hay.len() {
                assert(hay.subrange(from, from + needle.len()) =~= needle);
            }
        }
        find_from(hay, needle, from + 1)
    }
}

/// `find_from` gives an occurrence, the leftmost one at or after `from`,
/// and gives none only where there is none.
pub proof fn lemma_find_from_is_leftmost(hay: Seq<char>, needle: Seq<char>, from: int)
    requires
        0 <= from,
    ensures
        match find_from(hay, needle, from) {
            Some(i) => {
                &&& from <= i
                &&& is_match_at(hay, needle, i)
                &&& forall|j: int| from <= j < i ==> !is_match_at(hay, needle, j)
            },
            None => forall|j: int| from <= j ==> !is_match_at(hay, needle, j),
        },
    decreases hay.len() - from,
{
    if from + needle.len() > hay.len() {
    } else if is_match_at(hay, needle, from) {
    } else {
        if from >= hay.len() {
            assert(hay.subrange(from, from + needle.len()) =~= needle);
        }
        lemma_find_from_is_leftmost(hay, needle, from + 1);
    }
}

/// Whether `needle` stands in `hay` at index `at`.
pub fn matches_at(hay: &Vec<char>, needle: &Vec<char>, at: usize) -> (found: bool)
    ensures
        found == is_match_at(hay@, needle@, at as int),
{
    if needle.len() > hay.len() || at > hay.len() - needle.len() {
        return false;
    }
    let mut k: usize = 0;
    while k < needle.len()
        invariant
            k <= needle.len(),
            at + needle.len() <= hay.len(),
            forall|j: int| 0 <= j < k ==> hay@[at + j] == needle@[j],
        decreases needle.len() - k,
    {
        if hay[at + k] != needle[k] {
            return false;
        }
        k += 1;
    }
    assert(hay@.subrange(at as int, at + needle.len()) =~= needle@);
    true
}

/// The first index at or after `from` at which `needle` stands in `hay`.
pub fn find(hay: &Vec<char>, needle: &Vec<char>, from: usize) -> (at: Option<usize>)
    ensures
        at is Some ==> find_from(hay@, needle@, from as int) == Some(at->0 as int),
        at is Some ==> from <= at->0 && at->0 + needle@.len() <= hay@.len(),
        at is None ==> find_from(hay@, needle@, from as int) is None,
{
    if needle.len() > hay.len() {
        return None;
    }
    let last: usize = hay.len() - needle.len();
    let mut i: usize = from;
    while i <= last
        invariant
            from <= i,
            last == hay.len() - needle.len(),
            find_from(hay@, needle@, from as int) == find_from(hay@, needle@, i as int),
        decreases last - i + 1,
    {
        if matches_at(hay, needle, i) {
            return Some(i);
        }
        if i == last {
            assert(find_from(hay@, needle@, i + 1) is None);
            return None;
        }
        i += 1;
    }
    None
}

/// White space: the characters U+0009 to U+000D, U+0020, U+0085, U+00A0,
/// U+1680, U+2000 to U+200A, U+2028, U+2029, U+202F, U+205F and U+3000.
pub open spec fn is_whitespace(c: char) -> bool {
    let u = c as u32;
    ||| 0x09 <= u <= 0x0D
    ||| u == 0x20
    ||| u == 0x85
    ||| u == 0xA0
    ||| u == 0x1680
    ||| 0x2000 <= u <= 0x200A
    ||| u == 0x2028
    ||| u == 0x2029
    ||| u == 0x202F
    ||| u == 0x205F
    ||| u == 0x3000
}

pub fn char_is_whitespace(c: char) -> (b: bool)
    ensures
        b == is_whitespace(c),
{
    let u: u32 = c as u32;
    (0x09 <= u && u <= 0x0D) || u == 0x20 || u == 0x85 || u == 0xA0 || u == 0x1680 || (0x2000 <= u
        && u <= 0x200A) || u == 0x2028 || u == 0x2029 || u == 0x202F || u == 0x205F || u == 0x3000
}

/// The first index in `lo..hi` that holds no white space; `hi` if there is
/// none.
pub open spec fn skip_whitespace(s: Seq<char>, lo: int, hi: int) -> int
    decreases hi - lo,
{
    if lo >= hi {
        hi
    } else if !is_whitespace(s[lo]) {
        lo
    } else {
        skip_whitespace(s, lo + 1, hi)
    }
}

/// The end of `lo..hi` once the white space at its end is cut off.
pub open spec fn skip_whitespace_back(s: Seq<char>, lo: int, hi: int) -> int
    decreases hi - lo,
{
    if hi <= lo {
        lo
    } else if !is_whitespace(s[hi - 1]) {
        hi
    } else {
        skip_whitespace_back(s, lo, hi - 1)
    }
}

/// Where the trimmed part of `lo..hi` begins and ends.
pub open spec fn trim_bounds(s: Seq<char>, lo: int, hi: int) -> (int, int) {
    let start = skip_whitespace(s, lo, hi);
    (start, skip_whitespace_back(s, start, hi))
}

/// The characters of `s` in `lo..hi` without the white space at either end.
pub open spec fn trimmed_range(s: Seq<char>, lo: int, hi: int) -> Seq<char> {
    let (start, end) = trim_bounds(s, lo, hi);
    s.subrange(start, end)
}

/// `s` without the white space at either end.
pub open spec fn trimmed(s: Seq<char>) -> Seq<char> {
    trimmed_range(s, 0, s.len() as int)
}

/// Trimming cuts off white space only, and all of it: what is left neither
/// begins nor ends with white space.
pub proof fn lemma_trim_bounds(s: Seq<char>, lo: int, hi: int)
    requires
        0 <= lo <= hi <= s.len(),
    ensures
        ({
            let (start, end) = trim_bounds(s, lo, hi);
            &&& lo <= start <= end <= hi
            &&& forall|i: int| lo <= i < start ==> is_whitespace(s[i])
            &&& forall|i: int| end <= i < hi ==> is_whitespace(s[i])
            &&& start < end ==> !is_whitespace(s[start]) && !is_whitespace(s[end - 1])
        }),
{
    lemma_skip_whitespace(s, lo, hi);
    lemma_skip_whitespace_back(s, skip_whitespace(s, lo, hi), hi);
}

proof fn lemma_skip_whitespace(s: Seq<char>, lo: int, hi: int)
    requires
        0 <= lo <= hi <= s.len(),
    ensures
        lo <= skip_whitespace(s, lo, hi) <= hi,
        forall|i: int| lo <= i < skip_whitespace(s, lo, hi) ==> is_whitespace(s[i]),
        skip_whitespace(s, lo, hi) < hi ==> !is_whitespace(s[skip_whitespace(s, lo, hi)]),
    decreases hi - lo,
{
    if lo < hi && is_whitespace(s[lo]) {
        lemma_skip_whitespace(s, lo + 1, hi);
    }
}

proof fn lemma_skip_whitespace_back(s: Seq<char>, lo: int, hi: int)
    requires
        0 <= lo <= hi <= s.len(),
    ensures
        lo <= skip_whitespace_back(s, lo, hi) <= hi,
        forall|i: int| skip_whitespace_back(s, lo, hi) <= i < hi ==> is_whitespace(s[i]),
        lo < skip_whitespace_back(s, lo, hi) ==> !is_whitespace(
            s[skip_whitespace_back(s, lo, hi) - 1],
        ),
    decreases hi - lo,
{
    if lo < hi && is_whitespace(s[hi - 1]) {
        lemma_skip_whitespace_back(s, lo, hi - 1);
    }
}

/// Where the trimmed part of `lo..hi` begins and ends.
pub fn find_trim_bounds(chars: &Vec<char>, lo: usize, hi: usize) -> (bounds: (usize, usize))
    requires
        lo <= hi <= chars.len(),
    ensures
        (bounds.0 as int, bounds.1 as int) == trim_bounds(chars@, lo as int, hi as int),
        lo <= bounds.0 <= bounds.1 <= hi,
{
    let mut start: usize = lo;
    while start < hi && char_is_whitespace(chars[start])
        invariant
            lo <= start <= hi <= chars.len(),
            skip_whitespace(chars@, lo as int, hi as int) == skip_whitespace(
                chars@,
                start as int,
                hi as int,
            ),
        decreases hi - start,
    {
        start += 1;
    }
    let mut end: usize = hi;
    while end > start && char_is_whitespace(chars[end - 1])
        invariant
            start <= end <= hi <= chars.len(),
            skip_whitespace_back(chars@, start as int, hi as int) == skip_whitespace_back(
                chars@,
                start as int,
                end as int,
            ),
        decreases end - start,
    {
        end -= 1;
    }
    (start, end)
}

/// A copy of the characters of `source` in `lo..hi`.
pub fn copy_range(source: &str, lo: usize, hi: usize) -> (copy: String)
    requires
        lo <= hi <= source@.len(),
    ensures
        copy@ == source@.subrange(lo as int, hi as int),
{
    source.substring_char(lo, hi).to_owned()
}

/// `s` without the white space at either end.
pub fn trim(s: &str) -> (t: String)
    ensures
        t@ == trimmed(s@),
{
    let chars = chars_of(s);
    let (start, end) = find_trim_bounds(&chars, 0, chars.len());
    copy_range(s, start, end)
}

} // verus!
