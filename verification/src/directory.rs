//! Cutting the temple list out of the directory page.

use vstd::prelude::*;
use vstd::slice::slice_subrange;
use vstd::slice::slice_to_vec;
use vstd::string::StringSliceAdditionalSpecFns;

verus! {

/// Why a directory page yields no temple list.
#[derive(Clone, Copy, Debug, PartialEq, Eq, Structural)]
pub enum DirectoryError {
    /// The page does not hold the marker that opens the list.
    MissingStart,
    /// Nothing after the opening marker closes the list.
    MissingEnd,
}

impl DirectoryError {
    /// The text shown for this error.
    pub fn message(&self) -> (text: &'static str)
        ensures
            text@ == (match *self {
                DirectoryError::MissingStart => "Couldn't find start of temple data"@,
                DirectoryError::MissingEnd => "Couldn't find end of temple data"@,
            }),
    {
        match self {
            DirectoryError::MissingStart => "Couldn't find start of temple data",
            DirectoryError::MissingEnd => "Couldn't find end of temple data",
        }
    }
}

/// Whether `needle` stands in `hay` at index `at`.
pub open spec fn matches_at(hay: Seq<u8>, needle: Seq<u8>, at: int) -> bool {
    0 <= at && at + needle.len() <= hay.len() && hay.subrange(at, at + needle.len()) =~= needle
}

/// The least index at or after `from` where `needle` stands in `hay`.
pub open spec fn first_match(hay: Seq<u8>, needle: Seq<u8>, from: int) -> Option<int>
    decreases hay.len() - from,
{
    if from < 0 || from + needle.len() > hay.len() {
        None
    } else if matches_at(hay, needle, from) {
        Some(from)
    } else {
        first_match(hay, needle, from + 1)
    }
}

/// What lies between the first `open` and the end of the first `close` that
/// begins after it, the closing marker included and the opening one not.
pub open spec fn delimited(html: Seq<u8>, open: Seq<u8>, close: Seq<u8>) -> Result<
    Seq<u8>,
    DirectoryError,
> {
    match first_match(html, open, 0) {
        None => Err(DirectoryError::MissingStart),
        Some(at) => {
            let begin = at + open.len();
            match first_match(html, close, begin) {
                None => Err(DirectoryError::MissingEnd),
                Some(end) => Ok(html.subrange(begin, end + close.len())),
            }
        },
    }
}

/// The marker before the temple list, as bytes.
pub open spec fn start_delimiter() -> Seq<u8> {
    "templeList\":".spec_bytes()
}

/// The marker that ends the temple list, as bytes.
pub open spec fn end_delimiter() -> Seq<u8> {
    "}]".spec_bytes()
}

/// The first match is a match, begins at or after `from`, and no match begins
/// between `from` and it; where there is none, no match begins at or after
/// `from`.
pub proof fn lemma_first_match(hay: Seq<u8>, needle: Seq<u8>, from: int)
    requires
        0 <= from,
    ensures
        match first_match(hay, needle, from) {
            Some(at) => {
                &&& from <= at
                &&& matches_at(hay, needle, at)
                &&& forall|j: int| from <= j < at ==> !matches_at(hay, needle, j)
            },
            None => forall|j: int| from <= j ==> !matches_at(hay, needle, j),
        },
    decreases hay.len() - from,
{
    if from + needle.len() <= hay.len() && !matches_at(hay, needle, from) {
        lemma_first_match(hay, needle, from + 1);
    }
}

/// Whether `needle` stands in `hay` at `at`, compared byte by byte.
pub fn occurs_at(hay: &[u8], needle: &[u8], at: usize) -> (found: bool)
    requires
        at + needle@.len() <= hay@.len(),
    ensures
        found == matches_at(hay@, needle@, at as int),
{
    let hay_len = hay.len();
    let mut j: usize = 0;
    while j < needle.len()
        invariant
            j <= needle@.len(),
            at + needle@.len() <= hay@.len() == hay_len,
            forall|k: int| 0 <= k < j ==> hay@[at + k] == needle@[k],
        decreases needle@.len() - j,
    {
        if hay[at + j] != needle[j] {
            assert(hay@.subrange(at as int, at + needle@.len())[j as int] == hay@[at + j]);
            return false;
        }
        j += 1;
    }
    assert(hay@.subrange(at as int, at + needle@.len()) =~= needle@);
    true
}

/// The first place at or after `from` where `needle` stands in `hay`.
pub fn find_from(hay: &[u8], needle: &[u8], from: usize) -> (found: Option<usize>)
    requires
        from <= hay@.len(),
    ensures
        match found {
            Some(at) => first_match(hay@, needle@, from as int) == Some(at as int) && from <= at
                && at + needle@.len() <= hay@.len(),
            None => first_match(hay@, needle@, from as int) is None,
        },
{
    let mut i: usize = from;
    while needle.len() <= hay.len() - i
        invariant
            from <= i <= hay@.len(),
            first_match(hay@, needle@, from as int) == first_match(hay@, needle@, i as int),
        decreases hay@.len() - i,
    {
        if occurs_at(hay, needle, i) {
            return Some(i);
        }
        assert(needle@.len() > 0) by {
            if needle@.len() == 0 {
                assert(hay@.subrange(i as int, i as int) =~= needle@);
            }
        }
        i += 1;
    }
    None
}

/// Cuts out of `html` what stands between the first `open` and the end of the
/// first `close` after it.
pub fn extract_between(html: &[u8], open: &[u8], close: &[u8]) -> (result: Result<
    Vec<u8>,
    DirectoryError,
>)
    ensures
        match result {
            Ok(json) => delimited(html@, open@, close@) == Ok::<Seq<u8>, DirectoryError>(json@),
            Err(e) => delimited(html@, open@, close@) == Err::<Seq<u8>, DirectoryError>(e),
        },
{
    match find_from(html, open, 0) {
        None => Err(DirectoryError::MissingStart),
        Some(at) => {
            let html_len = html.len();
            let begin = at + open.len();
            match find_from(html, close, begin) {
                None => Err(DirectoryError::MissingEnd),
                Some(end) => Ok(slice_to_vec(slice_subrange(html, begin, end + close.len()))),
            }
        },
    }
}

/// Cuts the temple list, a JSON array, out of the directory page: from the
/// end of the first opening marker through the first closing marker after it.
pub fn extract_temple_json(html: &[u8]) -> (result: Result<Vec<u8>, DirectoryError>)
    ensures
        match result {
            Ok(json) => delimited(html@, start_delimiter(), end_delimiter()) == Ok::<
                Seq<u8>,
                DirectoryError,
            >(json@),
            Err(e) => delimited(html@, start_delimiter(), end_delimiter()) == Err::<
                Seq<u8>,
                DirectoryError,
            >(e),
        },
{
    extract_between(html, "templeList\":".as_bytes(), "}]".as_bytes())
}

} // verus!
