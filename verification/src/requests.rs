//! Parsing of the three request bodies the service accepts.
//!
//! Whether a body is well-formed, and which fields it carries, are
//! functions of the body's text alone, as serde_json and zen-engine's
//! derived schema decide them. Each is given a name here, applied by the
//! trusted wrapper that does the parse, so that the mapper's contracts can
//! say exactly when a request is rejected and what a successful parse
//! hands on.

use vstd::prelude::*;

verus! {

/// Whether `s` is well-formed JSON, as serde_json's parser decides it: a
/// function of the text alone.
pub uninterp spec fn json_parses(s: Seq<char>) -> bool;

/// Whether `s` is a well-formed inline evaluation request: JSON holding a
/// `context` field and a `content` field that fits the engine's document
/// schema.
pub uninterp spec fn simulate_fields_ok(s: Seq<char>) -> bool;

/// Whether `s` is a well-formed by-name evaluation request: JSON holding a
/// `context` field and a string `file_name` field.
pub uninterp spec fn eval_fields_ok(s: Seq<char>) -> bool;

/// The `file_name` field of a by-name request body; meaningful where
/// `eval_fields_ok` holds.
pub uninterp spec fn eval_name_of(s: Seq<char>) -> Seq<char>;

/// Whether `s` is a well-formed save request: JSON holding string `name`
/// and `json` fields.
pub uninterp spec fn save_fields_ok(s: Seq<char>) -> bool;

/// The `name` field of a save request body; meaningful where
/// `save_fields_ok` holds.
pub uninterp spec fn save_name_of(s: Seq<char>) -> Seq<char>;

/// The `json` field of a save request body; meaningful where
/// `save_fields_ok` holds.
pub uninterp spec fn save_json_of(s: Seq<char>) -> Seq<char>;

/// Relies on serde_json::from_str::<Value>, Value::get and
/// serde_json::from_value::<DecisionContent>: each deterministic in the
/// text, succeeding together exactly when the body is a well-formed inline
/// evaluation request.
#[verifier::external_body]
pub(crate) fn parse_simulate_fields(body: &str) -> (r: Option<
    (serde_json::Value, zen_engine::model::DecisionContent),
>)
    ensures
        r is Some <==> simulate_fields_ok(body@),
        r is Some ==> json_parses(body@),
{
    let v: serde_json::Value = serde_json::from_str(body).ok()?;
    let context = v.get("context")?.clone();
    let content = serde_json::from_value(v.get("content")?.clone()).ok()?;
    Some((context, content))
}

/// Relies on serde_json::from_str::<Value>, Value::get and Value::as_str:
/// each deterministic in the text, succeeding together exactly when the
/// body is a well-formed by-name evaluation request, whose `file_name`
/// field is handed on verbatim.
#[verifier::external_body]
pub(crate) fn parse_eval_fields(body: &str) -> (r: Option<(serde_json::Value, String)>)
    ensures
        r is Some <==> eval_fields_ok(body@),
        r is Some ==> json_parses(body@),
        r matches Some(p) ==> p.1@ == eval_name_of(body@),
{
    let v: serde_json::Value = serde_json::from_str(body).ok()?;
    let context = v.get("context")?.clone();
    let name = v.get("file_name")?.as_str()?.to_owned();
    Some((context, name))
}

/// Relies on serde_json::from_str::<Value>, Value::get and Value::as_str:
/// each deterministic in the text, succeeding together exactly when the
/// body is a well-formed save request, whose `name` and `json` fields are
/// handed on verbatim.
#[verifier::external_body]
pub(crate) fn parse_save_fields(body: &str) -> (r: Option<(String, String)>)
    ensures
        r is Some <==> save_fields_ok(body@),
        r is Some ==> json_parses(body@),
        r matches Some(p) ==> p.0@ == save_name_of(body@) && p.1@ == save_json_of(body@),
{
    let v: serde_json::Value = serde_json::from_str(body).ok()?;
    let name = v.get("name")?.as_str()?.to_owned();
    let json = v.get("json")?.as_str()?.to_owned();
    Some((name, json))
}

} // verus!
