//! The members of a JSON object, as far as a proof record needs them: each
//! key, and the member's text where the member is a string.

use vstd::prelude::*;

verus! {

/// One member of a JSON object: its key, and its text if it is a string.
#[derive(Clone, Debug, PartialEq, Eq)]
pub struct JsonMember {
    pub key: String,
    pub text: Option<String>,
}

/// The text of an optional string.
pub open spec fn option_text(s: Option<String>) -> Option<Seq<char>> {
    match s {
        Some(t) => Some(t@),
        None => None,
    }
}

impl View for JsonMember {
    type V = (Seq<char>, Option<Seq<char>>);

    open spec fn view(&self) -> (Seq<char>, Option<Seq<char>>) {
        (self.key@, option_text(self.text))
    }
}

/// The members of a list, each by its view.
pub open spec fn members_view(members: Seq<JsonMember>) -> Seq<(Seq<char>, Option<Seq<char>>)> {
    Seq::new(members.len(), |i: int| members[i]@)
}

/// The members of an optional list, each by its view.
pub open spec fn document_view(document: Option<Vec<JsonMember>>) -> Option<
    Seq<(Seq<char>, Option<Seq<char>>)>,
> {
    match document {
        Some(members) => Some(members_view(members@)),
        None => None,
    }
}

/// What `serde_json` reads from `bytes`: nothing, unless they are one JSON
/// document that is an object; else the object's members in the order in
/// which its map hands them out, each with its key and, where the member's
/// value is a string, that string.
pub uninterp spec fn json_object_members(bytes: Seq<u8>) -> Option<
    Seq<(Seq<char>, Option<Seq<char>>)>,
>;

/// Parses `bytes` with `serde_json::from_slice` as a `serde_json::Value` and
/// hands out the members of the object it finds. Trusted: that the parser
/// does not panic, and that what it returns depends on the bytes alone, which
/// is all that the name `json_object_members` says. Nothing is claimed of
/// which bytes are an object or of what its members hold.
#[verifier::external_body]
pub(crate) fn read_object(bytes: &Vec<u8>) -> (r: Option<Vec<JsonMember>>)
    ensures
        document_view(r) == json_object_members(bytes@),
{
    match serde_json::from_slice::<serde_json::Value>(bytes.as_slice()) {
        Ok(serde_json::Value::Object(map)) => Some(
            map.into_iter().map(
                |(key, value)|
                    match value {
                        serde_json::Value::String(text) => JsonMember { key, text: Some(text) },
                        _ => JsonMember { key, text: None },
                    },
            ).collect(),
        ),
        _ => None,
    }
}

} // verus!
