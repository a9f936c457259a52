use vstd::prelude::*;

verus! {

/// `needle` occurs as a contiguous run of characters somewhere in `haystack`
/// (the empty needle occurs everywhere).
pub open spec fn contains_sub(haystack: Seq<char>, needle: Seq<char>) -> bool {
    exists|i: int|
        0 <= i && i + needle.len() <= haystack.len() && #[trigger] haystack.subrange(
            i,
            i + needle.len(),
        ) == needle
}

/// What `str::to_lowercase` gives for a string with these characters
/// (Unicode lowercase mapping; it is a function of the characters alone).
pub uninterp spec fn lowercase_of(s: Seq<char>) -> Seq<char>;

/// Every character is ASCII.
pub open spec fn all_ascii(s: Seq<char>) -> bool {
    forall|i: int| 0 <= i < s.len() ==> (#[trigger] s[i] as u32) < 128
}

/// The ASCII lowercase of a character: `A` to `Z` become `a` to `z`, every
/// other character stays.
pub open spec fn ascii_lower(c: char) -> char {
    if 'A' <= c && c <= 'Z' {
        ((c as u32) + 32) as char
    } else {
        c
    }
}

/// Calls `str::to_lowercase`. Its documentation defines lowercase by the
/// Unicode `Lowercase` property; the contract names that result, and states
/// the one case that the Unicode mapping fixes in a line: on an all-ASCII
/// string the capital letters `A` to `Z` become `a` to `z` and every other
/// character stays (as the documentation's example `"HELLO"` to `"hello"`
/// shows).
#[verifier::external_body]
pub(crate) fn to_lowercase(s: &str) -> (res: String)
    ensures
        res@ == lowercase_of(s@),
        all_ascii(s@) ==> res@ == s@.map_values(|c: char| ascii_lower(c)),
{
    s.to_lowercase()
}

/// The characters of `s`, in order.
pub fn chars_of(s: &str) -> (res: Vec<char>)
    ensures
        res@ == s@,
{
    let mut res: Vec<char> = Vec::new();
    for c in it: s.chars()
        invariant
            it.seq() == s@,
            res@ == it.seq().take(it.index()),
    {
        res.push(c);
    }
    res
}

/// Whether `needle` occurs at position `start` of `haystack`.
fn occurs_at(haystack: &Vec<char>, needle: &Vec<char>, start: usize) -> (res: bool)
    requires
        start + needle@.len() <= haystack@.len(),
    ensures
        res == (haystack@.subrange(start as int, start + needle@.len()) == needle@),
{
    let n = needle.len();
    let hlen = haystack.len();
    let mut k: usize = 0;
    while k < n
        invariant
            n == needle@.len(),
            start + n <= haystack@.len(),
            hlen == haystack@.len(),
            k <= n,
            forall|j: int| 0 <= j < k ==> haystack@[start + j] == needle@[j],
        decreases n - k,
    {
        if haystack[start + k] != needle[k] {
            assert(haystack@.subrange(start as int, start + n)[k as int] != needle@[k as int]);
            return false;
        }
        k = k + 1;
    }
    assert(haystack@.subrange(start as int, start + n) =~= needle@);
    true
}

/// Substring search, as `str::contains` with a string pattern does it.
pub fn str_contains(haystack: &str, needle: &str) -> (res: bool)
    ensures
        res == contains_sub(haystack@, needle@),
{
    let h = chars_of(haystack);
    let n = chars_of(needle);
    if n.len() > h.len() {
        return false;
    }
    let last = h.len() - n.len();
    let mut i: usize = 0;
    while i < last
        invariant
            h@ == haystack@,
            n@ == needle@,
            last == h@.len() - n@.len(),
            n@.len() <= h@.len(),
            i <= last,
            forall|j: int|
                0 <= j < i ==> #[trigger] h@.subrange(j, j + n@.len()) != n@,
        decreases last - i,
    {
        if occurs_at(&h, &n, i) {
            return true;
        }
        i = i + 1;
    }
    if occurs_at(&h, &n, last) {
        return true;
    }
    assert forall|j: int|
        0 <= j && j + needle@.len() <= haystack@.len() implies #[trigger] haystack@.subrange(
        j,
        j + needle@.len(),
    ) != needle@ by {
        assert(j <= last);
    }
    false
}

} // verus!
