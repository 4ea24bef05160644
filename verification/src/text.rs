//! Case-insensitive substring matching, the test behind every search box.
use vstd::prelude::*;

verus! {

/// The lowercase form of a text, as `str::to_lowercase` computes it.
pub uninterp spec fn lowercase(s: Seq<char>) -> Seq<char>;

/// `needle` stands in `haystack` at position `at`.
pub open spec fn occurs_at(haystack: Seq<char>, needle: Seq<char>, at: int) -> bool {
    &&& 0 <= at
    &&& at + needle.len() <= haystack.len()
    &&& haystack.subrange(at, at + needle.len()) == needle
}

/// `needle` is a contiguous part of `haystack`.
pub open spec fn contains_text(haystack: Seq<char>, needle: Seq<char>) -> bool {
    exists|at: int| occurs_at(haystack, needle, at)
}

/// A text matches a query when the query is empty, or when the lowercase form
/// of the text contains the lowercase form of the query.
pub open spec fn matches_query(text: Seq<char>, query: Seq<char>) -> bool {
    query.len() == 0 || contains_text(lowercase(text), lowercase(query))
}

/// Calls `str::to_lowercase`. Trusted: the result is the lowercase form of the
/// argument, a function of the argument alone.
#[verifier::external_body]
pub(crate) fn to_lowercase(s: &str) -> (lowered: String)
    ensures
        lowered@ == lowercase(s@),
{
    s.to_lowercase()
}

/// The characters of a text, in their order.
pub fn chars_of(text: &str) -> (chars: Vec<char>)
    ensures
        chars@ == text@,
{
    broadcast use vstd::string::group_string_axioms;

    let mut chars: Vec<char> = Vec::new();
    for c in it: text.chars()
        invariant
            it.seq() == text@,
            chars@ == text@.take(it.index() as int),
    {
        chars.push(c);
    }
    chars
}

/// Whether `needle` stands in `haystack` at position `at`.
fn occurs_here(haystack: &Vec<char>, needle: &Vec<char>, at: usize) -> (found: bool)
    requires
        at + needle.len() <= haystack.len(),
    ensures
        found == occurs_at(haystack@, needle@, at as int),
{
    let mut k: usize = 0;
    while k < needle.len()
        invariant
            k <= needle.len(),
            at + needle.len() <= haystack.len(),
            forall|j: int| 0 <= j < k ==> haystack@[at + j] == needle@[j],
        decreases needle.len() - k,
    {
        if haystack[at + k] != needle[k] {
            return false;
        }
        k += 1;
    }
    assert(haystack@.subrange(at as int, at + needle.len()) =~= needle@);
    true
}

/// Whether `needle` is a contiguous part of `haystack`.
pub fn contains_chars(haystack: &Vec<char>, needle: &Vec<char>) -> (found: bool)
    ensures
        found == contains_text(haystack@, needle@),
{
    if needle.len() > haystack.len() {
        return false;
    }
    let last: usize = haystack.len() - needle.len();
    let mut at: usize = 0;
    loop
        invariant
            at <= last,
            last == haystack.len() - needle.len(),
            needle.len() <= haystack.len(),
            forall|i: int| 0 <= i < at ==> !occurs_at(haystack@, needle@, i),
        decreases last - at,
    {
        if occurs_here(haystack, needle, at) {
            return true;
        }
        if at == last {
            return false;
        }
        at += 1;
    }
}

/// Whether a text matches a query, given the query and the lowercase forms of
/// both: the empty query is matched by every text, any other query by the
/// texts whose lowercase form contains that of the query.
pub fn matches_lowered(query: &str, lowered_text: &str, lowered_query: &str) -> (matched: bool)
    ensures
        matched == (query@.len() == 0 || contains_text(lowered_text@, lowered_query@)),
{
    if query.is_empty() {
        true
    } else {
        let haystack = chars_of(lowered_text);
        let needle = chars_of(lowered_query);
        contains_chars(&haystack, &needle)
    }
}

/// Whether `text` matches `query`, ignoring case.
pub fn text_matches(text: &str, query: &str) -> (matched: bool)
    ensures
        matched == matches_query(text@, query@),
{
    if query.is_empty() {
        true
    } else {
        let lowered_query = to_lowercase(query);
        let lowered_text = to_lowercase(text);
        matches_lowered(query, lowered_text.as_str(), lowered_query.as_str())
    }
}

} // verus!
