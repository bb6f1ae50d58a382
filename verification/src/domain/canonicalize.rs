//! RFC 8785 JSON Canonicalisation Scheme (JCS).
//!
//! LHDN MyInvois requires the JSON document to be canonicalised before
//! hashing and signing: object members in a fixed order, no insignificant
//! whitespace, numbers as ECMAScript writes them. `serde_jcs` does it.

use vstd::prelude::*;
use super::{DomainError, DomainErrorView};
use crate::json::{
    embeds_raw, is_compact, json_parsed, json_text, lemma_same_object, object_of, same_members,
};

verus! {

/// What `serde_jcs::to_string` makes of the value with the given compact text:
/// its canonical text, or the message of the error.
pub uninterp spec fn jcs_outcome(value_text: Seq<char>) -> Result<Seq<char>, Seq<char>>;

/// The outcome of a call, in texts.
pub open spec fn text_outcome(outcome: Result<String, String>) -> Result<Seq<char>, Seq<char>> {
    match outcome {
        Ok(text) => Ok(text@),
        Err(why) => Err(why@),
    }
}

/// Whether the text, parsed and canonicalised again, is itself; nothing is said of
/// a text in which an object starts with the key of embedded JSON.
pub open spec fn is_stable(text: Seq<char>) -> bool {
    !embeds_raw(text) ==> (json_parsed(text) matches Ok(value_text) ==> jcs_outcome(value_text)
        == Ok::<Seq<char>, Seq<char>>(text))
}

/// `serde_jcs::to_string`: the same value gives the same text or the same error,
/// which is given by its message. The text, parsed and canonicalised again, is
/// itself: members are in the order of their names, and numbers are written so
/// that parsing them gives the same number (`float_roundtrip`); a text in which an
/// object starts with the key of embedded JSON would be parsed otherwise
/// (`raw_value`). Nothing is written between names, values and punctuation. How
/// the text is made up is not stated beyond that.
#[verifier::external_body]
fn jcs_to_string(value: &serde_json::Value) -> (outcome: Result<String, String>)
    ensures
        text_outcome(outcome) == jcs_outcome(json_text(*value)),
        outcome matches Ok(text) ==> is_stable(text@),
        outcome matches Ok(text) ==> is_compact(text@, false),
{
    serde_jcs::to_string(value).map_err(|e| e.to_string())
}

/// What canonicalisation gives for an outcome of the serializer.
pub open spec fn canonical_outcome(jcs: Result<Seq<char>, Seq<char>>) -> Result<
    Seq<char>,
    DomainErrorView,
> {
    match jcs {
        Ok(text) => Ok(text),
        Err(why) => Err(DomainErrorView::Canonicalize(why)),
    }
}

/// The canonical text, or the serializer's error as one of this layer.
pub fn from_jcs(jcs: Result<String, String>) -> (outcome: Result<String, DomainError>)
    ensures
        match outcome {
            Ok(text) => canonical_outcome(text_outcome(jcs)) == Ok::<Seq<char>, DomainErrorView>(
                text@,
            ),
            Err(error) => canonical_outcome(text_outcome(jcs)) == Err::<
                Seq<char>,
                DomainErrorView,
            >(error@),
        },
{
    match jcs {
        Ok(text) => Ok(text),
        Err(why) => Err(DomainError::Canonicalize(why)),
    }
}

/// Canonicalise a `serde_json::Value` to the string form that `serde_jcs` gives it
/// after RFC 8785. Canonical text is in canonical form already: parsed and
/// canonicalised again, it stays. There is no whitespace in it outside strings.
pub fn canonicalize_json(value: &serde_json::Value) -> (outcome: Result<String, DomainError>)
    ensures
        outcome matches Ok(text) ==> is_compact(text@, false),
        outcome matches Ok(text) ==> is_stable(text@),
        match outcome {
            Ok(text) => canonical_outcome(jcs_outcome(json_text(*value))) == Ok::<
                Seq<char>,
                DomainErrorView,
            >(text@),
            Err(error) => canonical_outcome(jcs_outcome(json_text(*value))) == Err::<
                Seq<char>,
                DomainErrorView,
            >(error@),
        },
{
    from_jcs(jcs_to_string(value))
}

/// Canonicalise and give the UTF-8 bytes: what is hashed and signed.
pub fn canonicalize_json_bytes(value: &serde_json::Value) -> (outcome: Result<Vec<u8>, DomainError>)
    ensures
        match outcome {
            Ok(bytes) => canonical_outcome(jcs_outcome(json_text(*value))) matches Ok(text)
                && bytes@ == vstd::utf8::encode_utf8(text),
            Err(error) => canonical_outcome(jcs_outcome(json_text(*value))) == Err::<
                Seq<char>,
                DomainErrorView,
            >(error@),
        },
{
    match canonicalize_json(value) {
        Ok(text) => Ok(text.as_str().as_bytes_vec()),
        Err(error) => Err(error),
    }
}

/// The order in which the members of an object come does not show in its canonical
/// text.
pub proof fn law_member_order_does_not_show(
    a: Seq<(Seq<char>, Seq<char>)>,
    b: Seq<(Seq<char>, Seq<char>)>,
)
    requires
        same_members(a, b),
    ensures
        object_of(a) == object_of(b),
        jcs_outcome(object_of(a)) == jcs_outcome(object_of(b)),
{
    lemma_same_object(a, b);
}

} // verus!
