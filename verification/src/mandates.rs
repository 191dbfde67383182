//! The record mapper's codec: a mandates list is persisted as one JSON
//! text blob and read back with a silent-recovery rule (a blob that does
//! not decode is read as the empty list, never as an error).

use vstd::prelude::*;

verus! {

/// The text blob that the JSON encoder produces for a given mandates list.
pub uninterp spec fn mandates_blob_of(mandates: Seq<Seq<char>>) -> Seq<char>;

/// What the JSON decoder recovers from a blob: the list it encodes, or
/// nothing when the blob does not parse as a list of strings.
pub uninterp spec fn mandates_of_blob(blob: Seq<char>) -> Option<Seq<Seq<char>>>;

/// The silent-recovery rule: a blob that does not decode is read as the
/// empty list.
pub open spec fn decoded_or_empty(blob: Seq<char>) -> Seq<Seq<char>> {
    match mandates_of_blob(blob) {
        Some(m) => m,
        None => Seq::empty(),
    }
}

/// Relies on serde_json::to_string for a vector of strings: it depends on
/// the input alone, it cannot fail (string serialization is infallible and
/// no map keys are involved), and serde_json::from_str recovers the same
/// vector from its output.
#[verifier::external_body]
fn encode_mandates(mandates: &Vec<String>) -> (r: String)
    ensures
        r@ == mandates_blob_of(mandates.deep_view()),
        mandates_of_blob(r@) == Some(mandates.deep_view()),
{
    serde_json::to_string(mandates).unwrap()
}

/// Relies on serde_json::from_str for a vector of strings: the result
/// depends on the input text alone; a text that is not a JSON array of
/// strings is rejected, not misread.
#[verifier::external_body]
fn decode_mandates(blob: &str) -> (r: Option<Vec<String>>)
    ensures
        match r {
            Some(v) => mandates_of_blob(blob@) == Some(v.deep_view()),
            None => mandates_of_blob(blob@) is None,
        },
{
    serde_json::from_str::<Vec<String>>(blob).ok()
}

/// Encode a mandates list into the persisted blob. The second clause is
/// the round-trip law: the blob always decodes back to the very list that
/// was encoded.
pub fn blob_from_mandates(mandates: &Vec<String>) -> (r: String)
    ensures
        r@ == mandates_blob_of(mandates.deep_view()),
        decoded_or_empty(r@) == mandates.deep_view(),
{
    encode_mandates(mandates)
}

/// Decode a persisted blob into a mandates list. A corrupted or
/// non-conforming blob yields the empty list, never an error.
pub fn mandates_from_blob(blob: &str) -> (r: Vec<String>)
    ensures
        r.deep_view() == decoded_or_empty(blob@),
{
    match decode_mandates(blob) {
        Some(v) => v,
        None => {
            let empty: Vec<String> = Vec::new();
            proof {
                assert(empty.deep_view() =~= Seq::<Seq<char>>::empty());
            }
            empty
        },
    }
}

} // verus!
