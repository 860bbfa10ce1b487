//! The file listing and its wire encoding: a JSON array of file-name
//! strings, carried in a single text frame.

use vstd::prelude::*;
use crate::frame::Frame;
use crate::frame::FrameModel;

verus! {

/// The JSON text that encodes a list of file names, as
/// `serde_json::to_string` produces it for a vector of strings.
pub uninterp spec fn json_listing_of(names: Seq<Seq<char>>) -> Seq<char>;

/// The list of names that `serde_json::from_str` recovers from a text
/// payload when asked for a vector of strings, or nothing when the text
/// is not a well-formed JSON array of strings.
pub uninterp spec fn parsed_listing_of(text: Seq<char>) -> Option<Seq<Seq<char>>>;

/// Relies on `serde_json::to_string` and `serde_json::from_str`: the
/// output of `to_string` depends on the value alone; serialising a
/// vector of strings cannot fail (per its documentation, serialisation
/// fails only for faulty `Serialize` impls or maps with non-string
/// keys); and `from_str` recovers exactly the serialised strings from
/// it (serde_json's serialise/deserialise round trip).
#[verifier::external_body]
fn encode_listing(names: &Vec<String>) -> (r: String)
    ensures
        r@ == json_listing_of(names.deep_view()),
        parsed_listing_of(r@) == Some(names.deep_view()),
{
    match serde_json::to_string(names) {
        Ok(s) => s,
        Err(_) => String::new(),
    }
}

/// Relies on `serde_json::from_str`: its result depends on the text
/// alone, and parsing a text that `serde_json::to_string` produced for
/// a vector of strings gives back exactly those strings (serde_json's
/// serialise/deserialise round trip).
#[verifier::external_body]
fn decode_listing(text: &str) -> (r: Option<Vec<String>>)
    ensures
        r matches Some(v) ==> parsed_listing_of(text@) == Some(v.deep_view()),
        r is None ==> parsed_listing_of(text@) is None,
{
    match serde_json::from_str::<Vec<String>>(text) {
        Ok(v) => Some(v),
        Err(_) => None,
    }
}

/// What a client recovers from a received frame: the names of a
/// decodable text listing, and no files from anything else.
pub open spec fn listing_of_frame(f: FrameModel) -> Seq<Seq<char>> {
    match f {
        FrameModel::Text(t) => match parsed_listing_of(t) {
            Some(names) => names,
            None => Seq::empty(),
        },
        _ => Seq::empty(),
    }
}

/// Encode a listing as the single text frame the server sends.
///
/// The second clause is the protocol's round trip: whoever parses this
/// frame recovers exactly the names that went in.
pub fn listing_frame(names: &Vec<String>) -> (f: Frame)
    ensures
        f@ == FrameModel::Text(json_listing_of(names.deep_view())),
        listing_of_frame(f@) == names.deep_view(),
{
    Frame::Text(encode_listing(names))
}

/// Recover a listing from a received frame. A frame that is not a
/// decodable text listing counts as "no files".
pub fn parse_listing_frame(frame: &Frame) -> (names: Vec<String>)
    ensures
        names.deep_view() == listing_of_frame(frame@),
{
    match frame {
        Frame::Text(t) => match decode_listing(t.as_str()) {
            Some(v) => v,
            _ => empty_listing(),
        },
        _ => empty_listing(),
    }
}

/// A listing with no names at all.
fn empty_listing() -> (names: Vec<String>)
    ensures
        names.deep_view() == Seq::<Seq<char>>::empty(),
{
    let names: Vec<String> = Vec::new();
    proof {
        assert(names.deep_view() =~= Seq::<Seq<char>>::empty());
    }
    names
}

/// Whether a listing holds this exact name.
pub open spec fn listing_has_name(names: Seq<Seq<char>>, name: Seq<char>) -> bool {
    exists|i: int| 0 <= i < names.len() && names[i] == name
}

/// Membership test used by the server to resolve a selection.
pub fn listing_contains(names: &Vec<String>, name: &String) -> (r: bool)
    ensures
        r == listing_has_name(names.deep_view(), name@),
{
    let mut i: usize = 0;
    while i < names.len()
        invariant
            0 <= i <= names.len(),
            forall|j: int| 0 <= j < i ==> names.deep_view()[j] != name@,
        decreases names.len() - i,
    {
        let candidate = &names[i];
        if candidate.eq(name) {
            proof {
                assert(names.deep_view()[i as int] == name@);
            }
            return true;
        }
        proof {
            assert(names.deep_view()[i as int] == names@[i as int]@);
        }
        i += 1;
    }
    false
}

} // verus!
