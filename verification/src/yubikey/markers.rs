//! Framing of a payload between two marker lines, so that it can be found
//! again in what a token hands back.

use vstd::prelude::*;
use vstd::utf8::encode_utf8;
use crate::bytes::copy_range;
use crate::bytes::extend_bytes;

verus! {

/// The line that opens a framed payload.
pub open spec fn begin_marker() -> Seq<u8> {
    encode_utf8("---   BEGIN ENCRYPTED DATA    ---"@)
}

/// The line that closes a framed payload.
pub open spec fn end_marker() -> Seq<u8> {
    encode_utf8("---   END ENCRYPTED DATA    ---"@)
}

/// A payload between its markers: opening marker, newline, payload,
/// newline, closing marker.
pub open spec fn wrapped(data: Seq<u8>) -> Seq<u8> {
    begin_marker() + seq![10u8] + data + seq![10u8] + end_marker()
}

/// `needle` stands in `haystack` at index `at`.
pub open spec fn occurs_at(haystack: Seq<u8>, needle: Seq<u8>, at: int) -> bool {
    &&& 0 <= at
    &&& at + needle.len() <= haystack.len()
    &&& haystack.subrange(at, at + needle.len()) == needle
}

/// `at` is the first index at which `needle` stands in `haystack`.
pub open spec fn is_first_occurrence(haystack: Seq<u8>, needle: Seq<u8>, at: int) -> bool {
    &&& occurs_at(haystack, needle, at)
    &&& forall|earlier: int| 0 <= earlier < at ==> !occurs_at(haystack, needle, earlier)
}

/// The payload cut out of `data` once the first opening marker is known to
/// stand at `begin` and the first closing marker at `end`: what lies between
/// the byte after the opening marker and the byte before the closing one,
/// or nothing where that range is empty.
pub open spec fn cut_between(data: Seq<u8>, begin: int, end: int) -> Seq<u8> {
    let start = begin + begin_marker().len() + 1;
    let stop = if end >= 1 {
        end - 1
    } else {
        0
    };
    if start < stop {
        data.subrange(start, stop)
    } else {
        Seq::<u8>::empty()
    }
}

/// The first index at which `needle` stands in `haystack`, if it stands
/// there at all.
pub open spec fn first_occurrence(haystack: Seq<u8>, needle: Seq<u8>) -> Option<int> {
    if exists|at: int| is_first_occurrence(haystack, needle, at) {
        Some(choose|at: int| is_first_occurrence(haystack, needle, at))
    } else {
        None
    }
}

/// What [`extract_from_markers`] takes out of `data`: the range between the
/// first opening and the first closing marker, or nothing where one of them
/// is missing.
pub open spec fn extracted(data: Seq<u8>) -> Seq<u8> {
    match (first_occurrence(data, begin_marker()), first_occurrence(data, end_marker())) {
        (Some(begin), Some(end)) => cut_between(data, begin, end),
        _ => Seq::<u8>::empty(),
    }
}

/// There is at most one first occurrence.
pub proof fn lemma_first_occurrence_unique(haystack: Seq<u8>, needle: Seq<u8>, a: int, b: int)
    requires
        is_first_occurrence(haystack, needle, a),
        is_first_occurrence(haystack, needle, b),
    ensures
        a == b,
{
    if a < b {
        assert(!occurs_at(haystack, needle, a));
    } else if b < a {
        assert(!occurs_at(haystack, needle, b));
    }
}

/// Whether `needle` stands in `haystack` at `at`.
fn matches_at(haystack: &[u8], needle: &[u8], at: usize) -> (yes: bool)
    requires
        at + needle@.len() <= haystack@.len(),
    ensures
        yes == occurs_at(haystack@, needle@, at as int),
{
    let n: usize = needle.len();
    let h: usize = haystack.len();
    let mut k: usize = 0;
    while k < n
        invariant
            k <= n,
            n == needle@.len(),
            h == haystack@.len(),
            at + n <= h,
            forall|j: int| 0 <= j < k ==> haystack@[at + j] == needle@[j],
        decreases n - k,
    {
        if haystack[at + k] != needle[k] {
            assert(haystack@.subrange(at as int, at + needle@.len())[k as int] != needle@[k as int]);
            return false;
        }
        k = k + 1;
    }
    assert(haystack@.subrange(at as int, at + needle@.len()) =~= needle@);
    true
}

/// The first index at which `needle` stands in `haystack`, if any. An empty
/// needle stands at index 0 of every haystack.
pub fn find_subsequence(haystack: &[u8], needle: &[u8]) -> (r: Option<usize>)
    ensures
        match r {
            Some(at) => is_first_occurrence(haystack@, needle@, at as int) && first_occurrence(
                haystack@,
                needle@,
            ) == Some(at as int),
            None => first_occurrence(haystack@, needle@) is None && forall|at: int|
                !occurs_at(haystack@, needle@, at),
        },
{
    if needle.len() > haystack.len() {
        return None;
    }
    let last: usize = haystack.len() - needle.len();
    let mut at: usize = 0;
    loop
        invariant
            at <= last,
            last == haystack@.len() - needle@.len(),
            forall|earlier: int| 0 <= earlier < at ==> !occurs_at(haystack@, needle@, earlier),
        decreases last - at,
    {
        if matches_at(haystack, needle, at) {
            proof {
                assert(is_first_occurrence(haystack@, needle@, at as int));
                let chosen = choose|c: int| is_first_occurrence(haystack@, needle@, c);
                lemma_first_occurrence_unique(haystack@, needle@, at as int, chosen);
            }
            return Some(at);
        }
        if at == last {
            return None;
        }
        at = at + 1;
    }
}

/// Puts a payload between its markers.
pub fn wrap_with_markers(data: &[u8]) -> (result: Vec<u8>)
    ensures
        result@ == wrapped(data@),
{
    let newline: [u8; 1] = [10u8];
    let mut result: Vec<u8> = Vec::new();
    extend_bytes(&mut result, "---   BEGIN ENCRYPTED DATA    ---".as_bytes());
    extend_bytes(&mut result, newline.as_slice());
    extend_bytes(&mut result, data);
    extend_bytes(&mut result, newline.as_slice());
    extend_bytes(&mut result, "---   END ENCRYPTED DATA    ---".as_bytes());
    assert(newline@ == seq![10u8]);
    result
}

/// Takes the payload out from between the first opening and the first
/// closing marker; empty where a marker is missing or the closing one does
/// not come after the opening one.
pub fn extract_from_markers(data: &[u8]) -> (payload: Vec<u8>)
    ensures
        payload@ == extracted(data@),
{
    let begin_bytes = "---   BEGIN ENCRYPTED DATA    ---".as_bytes();
    let end_bytes = "---   END ENCRYPTED DATA    ---".as_bytes();
    let begin_idx = match find_subsequence(data, begin_bytes) {
        Some(at) => at,
        None => {
            return Vec::new();
        },
    };
    let end_idx = match find_subsequence(data, end_bytes) {
        Some(at) => at,
        None => {
            return Vec::new();
        },
    };
    let data_len: usize = data.len();
    assert(occurs_at(data@, begin_bytes@, begin_idx as int));
    let after_begin: usize = begin_idx + begin_bytes.len();
    let stop: usize = if end_idx >= 1 {
        end_idx - 1
    } else {
        0
    };
    if after_begin >= stop {
        return Vec::new();
    }
    let start: usize = after_begin + 1;
    if start < stop {
        copy_range(data, start, stop)
    } else {
        Vec::new()
    }
}

/// What is done to a payload before it is encrypted: it is framed.
pub fn prepare_for_encryption(plaintext: &[u8]) -> (result: Vec<u8>)
    ensures
        result@ == wrapped(plaintext@),
{
    wrap_with_markers(plaintext)
}

/// What is done to a decrypted block: the payload is taken out of its frame.
pub fn process_after_decryption(data: &[u8]) -> (payload: Vec<u8>)
    ensures
        payload@ == extracted(data@),
{
    extract_from_markers(data)
}

} // verus!
