//! Reading the bearer value out of an `Authorization` header.
//!
//! The header is cut at its spaces. The first piece is the scheme, which is
//! not inspected; the second piece is the token. Anything after a second space
//! is ignored.

use vstd::prelude::*;
use vstd::string::*;

verus! {

/// The position of the first space of `s` at or after `from`, or the length of
/// `s` when no space follows.
pub open spec fn segment_end(s: Seq<char>, from: int) -> int
    recommends
        0 <= from <= s.len(),
    decreases s.len() - from,
{
    if from < 0 || from >= s.len() || s[from] == ' ' {
        from
    } else {
        segment_end(s, from + 1)
    }
}

/// The second space-separated piece of `header`, if the header holds a space.
pub open spec fn spec_bearer_token(header: Seq<char>) -> Option<Seq<char>> {
    let scheme_end = segment_end(header, 0);
    if scheme_end >= header.len() {
        None
    } else {
        Some(header.subrange(scheme_end + 1, segment_end(header, scheme_end + 1)))
    }
}

/// `segment_end` stops at the first space and nowhere earlier.
pub proof fn lemma_segment_end(s: Seq<char>, from: int)
    requires
        0 <= from <= s.len(),
    ensures
        from <= segment_end(s, from) <= s.len(),
        forall|k: int| from <= k < segment_end(s, from) ==> s[k] != ' ',
        segment_end(s, from) < s.len() ==> s[segment_end(s, from)] == ' ',
    decreases s.len() - from,
{
    if from < s.len() && s[from] != ' ' {
        lemma_segment_end(s, from + 1);
    }
}

/// A header has a bearer value exactly when it holds a space. The value is the
/// run of characters between the first space and the next one, or the end of
/// the header, and holds no space itself.
pub proof fn lemma_bearer_token(header: Seq<char>)
    ensures
        spec_bearer_token(header) is None <==> forall|k: int|
            0 <= k < header.len() ==> header[k] != ' ',
        spec_bearer_token(header) matches Some(token) ==> {
            let start = segment_end(header, 0) + 1;
            let end = start + token.len();
            &&& 0 < start <= end <= header.len()
            &&& header[start - 1] == ' '
            &&& forall|k: int| 0 <= k < start - 1 ==> header[k] != ' '
            &&& token == header.subrange(start, end)
            &&& forall|k: int| 0 <= k < token.len() ==> token[k] != ' '
            &&& (end == header.len() || header[end] == ' ')
        },
{
    lemma_segment_end(header, 0);
    let scheme_end = segment_end(header, 0);
    if scheme_end < header.len() {
        lemma_segment_end(header, scheme_end + 1);
    }
}

/// The second space-separated piece of `header`.
///
/// A header without a space has no second piece. A header that ends in a
/// space, or holds two spaces in a row, has an empty one.
pub fn bearer_token<'a>(header: &'a str) -> (token: Option<&'a str>)
    ensures
        match token {
            Some(t) => spec_bearer_token(header@) == Some(t@),
            None => spec_bearer_token(header@) is None,
        },
{
    let len = header.unicode_len();
    let mut scheme_end: Option<usize> = None;
    let mut token_end: Option<usize> = None;
    let mut i: usize = 0;
    for c in it: header.chars()
        invariant
            len == header@.len(),
            it.seq() == header@,
            i == it.index(),
            match scheme_end {
                None => token_end is None && segment_end(header@, 0) == segment_end(
                    header@,
                    i as int,
                ),
                Some(s) => s < i && s == segment_end(header@, 0) && match token_end {
                    None => segment_end(header@, s + 1) == segment_end(header@, i as int),
                    Some(t) => s < t < i && t == segment_end(header@, s + 1),
                },
            },
    {
        if c == ' ' {
            if scheme_end.is_none() {
                scheme_end = Some(i);
            } else if token_end.is_none() {
                token_end = Some(i);
            }
        }
        i += 1;
    }
    match scheme_end {
        None => None,
        Some(s) => {
            let t = match token_end {
                Some(t) => t,
                None => len,
            };
            Some(header.substring_char(s + 1, t))
        },
    }
}

} // verus!
