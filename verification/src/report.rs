//! The error bodies that land on an invoice, as compact JSON. Dashboards group
//! by their members.

use vstd::prelude::*;
use crate::json::{
    array_text, compact_text, json_array, json_integer, json_null, json_object, json_string,
    key_before, member_texts, object_text, string_text,
};
use crate::lhdn::models::{optional_text, EnvelopeView, LhdnErrorEnvelope};
use crate::text::decimal;

verus! {

/// A delivery that failed: which error, in words, and the how-manieth attempt.
pub open spec fn delivery_error(kind: Seq<char>, message: Seq<char>, attempts: int) -> Seq<char> {
    object_text(
        seq![
            ("attempts"@, decimal(attempts)),
            ("kind"@, string_text(kind)),
            ("message"@, string_text(message)),
        ],
    )
}

/// A call that failed at a stage after the delivery.
pub open spec fn stage_error(
    stage: Seq<char>,
    kind: Seq<char>,
    message: Seq<char>,
    attempts: int,
) -> Seq<char> {
    object_text(
        seq![
            ("attempts"@, decimal(attempts)),
            ("kind"@, string_text(kind)),
            ("message"@, string_text(message)),
            ("stage"@, string_text(stage)),
        ],
    )
}

/// A document that LHDN rejected on intake.
pub open spec fn rejection(error: EnvelopeView) -> Seq<char> {
    object_text(
        seq![
            ("code"@, string_text(error.code)),
            ("details"@, array_text(error.details)),
            ("message"@, string_text(error.message)),
            ("stage"@, string_text("lhdn_rejection"@)),
        ],
    )
}

/// A payload that no document could be built from.
pub open spec fn build_error(error: Seq<char>) -> Seq<char> {
    object_text(
        seq![
            ("error"@, string_text(error)),
            ("stage"@, string_text("build_signed_document"@)),
        ],
    )
}

/// An event whose invoice is gone.
pub open spec fn row_missing() -> Seq<char> {
    object_text(seq![("error"@, string_text("invoice row missing"@))])
}

/// A cancellation that is not sent.
pub open spec fn precondition(reason: Seq<char>) -> Seq<char> {
    object_text(
        seq![
            ("reason"@, string_text(reason)),
            ("stage"@, string_text("cancel_precondition"@)),
        ],
    )
}

/// A poll that is not sent.
pub open spec fn poll_precondition(reason: Seq<char>) -> Seq<char> {
    object_text(
        seq![("reason"@, string_text(reason)), ("stage"@, string_text("poll_precondition"@))],
    )
}

/// A reason that LHDN may have left out.
pub open spec fn optional_reason(reason: Option<Seq<char>>) -> Seq<char> {
    match reason {
        Some(text) => string_text(text),
        None => "null"@,
    }
}

/// A document that LHDN found invalid.
pub open spec fn found_invalid(reason: Option<Seq<char>>) -> Seq<char> {
    object_text(
        seq![
            ("reason"@, optional_reason(reason)),
            ("stage"@, string_text("lhdn_validation"@)),
            ("status"@, string_text("Invalid"@)),
        ],
    )
}

/// A document that LHDN did not come to a verdict on in time.
pub open spec fn poll_exhausted(attempts: int) -> Seq<char> {
    object_text(
        seq![
            ("attempts"@, decimal(attempts)),
            ("stage"@, string_text("poll_exhausted"@)),
            ("status"@, string_text("Submitted"@)),
        ],
    )
}

/// The order of the members' names.
proof fn lemma_names_ascend()
    ensures
        key_before("attempts"@, "kind"@),
        key_before("attempts"@, "message"@),
        key_before("attempts"@, "stage"@),
        key_before("attempts"@, "status"@),
        key_before("code"@, "details"@),
        key_before("code"@, "message"@),
        key_before("code"@, "stage"@),
        key_before("details"@, "message"@),
        key_before("details"@, "stage"@),
        key_before("error"@, "stage"@),
        key_before("kind"@, "message"@),
        key_before("kind"@, "stage"@),
        key_before("message"@, "stage"@),
        key_before("reason"@, "stage"@),
        key_before("reason"@, "status"@),
        key_before("stage"@, "status"@),
{
    reveal_strlit("attempts");
    reveal_strlit("code");
    reveal_strlit("details");
    reveal_strlit("error");
    reveal_strlit("kind");
    reveal_strlit("message");
    reveal_strlit("reason");
    reveal_strlit("stage");
    reveal_strlit("status");
    assert(key_before("stage"@, "status"@)) by {
        reveal_with_fuel(key_before, 4);
        let a = "stage"@.drop_first();
        let b = "status"@.drop_first();
        assert(a.first() == b.first());
        assert(a.drop_first().first() == b.drop_first().first());
        assert(a.drop_first().drop_first().first() < b.drop_first().drop_first().first());
    }
}

pub(crate) fn delivery_error_of(kind: &str, message: &str, attempts: i64) -> (body: String)
    ensures
        body@ == delivery_error(kind@, message@, attempts as int),
{
    let mut members: Vec<(&'static str, serde_json::Value)> = Vec::new();
    members.push(("attempts", json_integer(attempts)));
    members.push(("kind", json_string(kind)));
    members.push(("message", json_string(message)));
    proof {
        lemma_names_ascend();
        let expected = seq![
            ("attempts"@, decimal(attempts as int)),
            ("kind"@, string_text(kind@)),
            ("message"@, string_text(message@)),
        ];
        assert(member_texts(members@) =~= expected);
    }
    compact_text(&json_object(members))
}

pub(crate) fn stage_error_of(stage: &str, kind: &str, message: &str, attempts: i64) -> (body:
    String)
    ensures
        body@ == stage_error(stage@, kind@, message@, attempts as int),
{
    let mut members: Vec<(&'static str, serde_json::Value)> = Vec::new();
    members.push(("attempts", json_integer(attempts)));
    members.push(("kind", json_string(kind)));
    members.push(("message", json_string(message)));
    members.push(("stage", json_string(stage)));
    proof {
        lemma_names_ascend();
        let expected = seq![
            ("attempts"@, decimal(attempts as int)),
            ("kind"@, string_text(kind@)),
            ("message"@, string_text(message@)),
            ("stage"@, string_text(stage@)),
        ];
        assert(member_texts(members@) =~= expected);
    }
    compact_text(&json_object(members))
}

pub(crate) fn rejection_of(error: LhdnErrorEnvelope) -> (body: String)
    ensures
        body@ == rejection(error@),
{
    let ghost expected = seq![
        ("code"@, string_text(error.code@)),
        ("details"@, array_text(error@.details)),
        ("message"@, string_text(error.message@)),
        ("stage"@, string_text("lhdn_rejection"@)),
    ];
    let mut members: Vec<(&'static str, serde_json::Value)> = Vec::new();
    members.push(("code", json_string(&error.code)));
    members.push(("details", json_array(error.details)));
    members.push(("message", json_string(&error.message)));
    members.push(("stage", json_string("lhdn_rejection")));
    proof {
        lemma_names_ascend();
        assert(member_texts(members@) =~= expected);
    }
    compact_text(&json_object(members))
}

pub(crate) fn build_error_of(error: &str) -> (body: String)
    ensures
        body@ == build_error(error@),
{
    let mut members: Vec<(&'static str, serde_json::Value)> = Vec::new();
    members.push(("error", json_string(error)));
    members.push(("stage", json_string("build_signed_document")));
    proof {
        lemma_names_ascend();
        let expected = seq![
            ("error"@, string_text(error@)),
            ("stage"@, string_text("build_signed_document"@)),
        ];
        assert(member_texts(members@) =~= expected);
    }
    compact_text(&json_object(members))
}

pub(crate) fn row_missing_of() -> (body: String)
    ensures
        body@ == row_missing(),
{
    let mut members: Vec<(&'static str, serde_json::Value)> = Vec::new();
    members.push(("error", json_string("invoice row missing")));
    proof {
        let expected = seq![("error"@, string_text("invoice row missing"@))];
        assert(member_texts(members@) =~= expected);
    }
    compact_text(&json_object(members))
}

pub(crate) fn precondition_of(reason: &str) -> (body: String)
    ensures
        body@ == precondition(reason@),
{
    let mut members: Vec<(&'static str, serde_json::Value)> = Vec::new();
    members.push(("reason", json_string(reason)));
    members.push(("stage", json_string("cancel_precondition")));
    proof {
        lemma_names_ascend();
        let expected = seq![
            ("reason"@, string_text(reason@)),
            ("stage"@, string_text("cancel_precondition"@)),
        ];
        assert(member_texts(members@) =~= expected);
    }
    compact_text(&json_object(members))
}

pub(crate) fn poll_precondition_of(reason: &str) -> (body: String)
    ensures
        body@ == poll_precondition(reason@),
{
    let mut members: Vec<(&'static str, serde_json::Value)> = Vec::new();
    members.push(("reason", json_string(reason)));
    members.push(("stage", json_string("poll_precondition")));
    proof {
        lemma_names_ascend();
        let expected = seq![
            ("reason"@, string_text(reason@)),
            ("stage"@, string_text("poll_precondition"@)),
        ];
        assert(member_texts(members@) =~= expected);
    }
    compact_text(&json_object(members))
}

pub(crate) fn found_invalid_of(reason: &Option<String>) -> (body: String)
    ensures
        body@ == found_invalid(optional_text(*reason)),
{
    let reason_value = match reason {
        Some(text) => json_string(text),
        None => json_null(),
    };
    let mut members: Vec<(&'static str, serde_json::Value)> = Vec::new();
    members.push(("reason", reason_value));
    members.push(("stage", json_string("lhdn_validation")));
    members.push(("status", json_string("Invalid")));
    proof {
        lemma_names_ascend();
        let expected = seq![
            ("reason"@, optional_reason(optional_text(*reason))),
            ("stage"@, string_text("lhdn_validation"@)),
            ("status"@, string_text("Invalid"@)),
        ];
        assert(member_texts(members@) =~= expected);
    }
    compact_text(&json_object(members))
}

pub(crate) fn poll_exhausted_of(attempts: i64) -> (body: String)
    ensures
        body@ == poll_exhausted(attempts as int),
{
    let mut members: Vec<(&'static str, serde_json::Value)> = Vec::new();
    members.push(("attempts", json_integer(attempts)));
    members.push(("stage", json_string("poll_exhausted")));
    members.push(("status", json_string("Submitted")));
    proof {
        lemma_names_ascend();
        let expected = seq![
            ("attempts"@, decimal(attempts as int)),
            ("stage"@, string_text("poll_exhausted"@)),
            ("status"@, string_text("Submitted"@)),
        ];
        assert(member_texts(members@) =~= expected);
    }
    compact_text(&json_object(members))
}

} // verus!
