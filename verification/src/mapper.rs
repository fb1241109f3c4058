//! The request/response mapper: validates the supported request shapes,
//! resolves inline and by-name evaluation requests, and turns store and
//! dispatcher outcomes into transport-level replies.

use vstd::prelude::*;
use crate::dispatch::{
    decision_parses, evaluate, parse_decision, serialize_error, serialize_response, EngineReply,
    EvalOptions,
};
use crate::jsontext::{file_object_json, render_file_object, render_string_array, string_array_json};
use crate::names::safe_name;
use crate::requests::{
    eval_fields_ok, eval_name_of, json_parses, parse_eval_fields, parse_save_fields,
    parse_simulate_fields, save_fields_ok, save_json_of, save_name_of, simulate_fields_ok,
};
use crate::store::{listed_names, RuleStore, StoreError};

verus! {

/// A transport-level reply: a status code and a body.
pub struct HttpReply {
    pub status: u16,
    pub body: String,
}

/// The reply to a malformed or incomplete request body.
fn client_error() -> (r: HttpReply)
    ensures
        r.status == 400,
        r.body@ == "Invalid request body"@,
{
    HttpReply { status: 400, body: "Invalid request body".to_owned() }
}

/// The health probe's reply.
pub fn health_reply() -> (r: HttpReply)
    ensures
        r.status == 200,
        r.body@ == "healthy"@,
{
    HttpReply { status: 200, body: "healthy".to_owned() }
}

/// Maps an inline-evaluation outcome to its reply: the engine's result with
/// 200, the engine's structured failure with 400, a refused context with
/// 400, a dispatch failure with 500. Every outcome is answered; none
/// escapes the handler.
pub fn simulate_reply(reply: EngineReply) -> (r: HttpReply)
    ensures
        reply is Success ==> r.status == 200,
        reply is Failure ==> r.status == 400,
        reply is ContextError ==> r.status == 400 && r.body@ == "Invalid context"@,
        reply is Dispatch ==> r.status == 500 && r.body@ == "Failed to evaluate"@,
{
    match reply {
        EngineReply::Success(resp) => HttpReply { status: 200, body: serialize_response(&resp) },
        EngineReply::Failure(e) => HttpReply { status: 400, body: serialize_error(&e) },
        EngineReply::ContextError => HttpReply {
            status: 400,
            body: "Invalid context".to_owned(),
        },
        EngineReply::Dispatch => HttpReply {
            status: 500,
            body: "Failed to evaluate".to_owned(),
        },
    }
}

/// Handles an inline evaluation request body, tracing enabled and depth
/// unset. A malformed body, or one without a `context` field and a
/// `content` that fits the engine's schema, is the client's error: nothing
/// is evaluated and the reply says so with 400. Engine outcomes are mapped
/// by `simulate_reply`.
pub fn simulate(body: &str) -> (r: HttpReply)
    ensures
        !simulate_fields_ok(body@) ==> r.status == 400 && r.body@ == "Invalid request body"@,
        !json_parses(body@) ==> r.status == 400,
        r.status == 200 ==> json_parses(body@) && simulate_fields_ok(body@),
        r.status == 500 ==> simulate_fields_ok(body@) && r.body@ == "Failed to evaluate"@,
        r.status == 200 || r.status == 400 || r.status == 500,
{
    let (context, content) = match parse_simulate_fields(body) {
        Some(p) => p,
        None => {
            return client_error();
        },
    };
    let reply = evaluate(content, &context, &EvalOptions { trace: true, max_depth: None });
    simulate_reply(reply)
}

/// Maps a by-name evaluation outcome to its reply: a dispatched run is
/// surfaced with 200 whether the engine returned a result or a structured
/// failure; a refused context is the client's error; only a dispatch
/// failure is the service's own.
pub fn named_reply(reply: EngineReply) -> (r: HttpReply)
    ensures
        reply is Success ==> r.status == 200,
        reply is Failure ==> r.status == 200,
        reply is ContextError ==> r.status == 400 && r.body@ == "Invalid context"@,
        reply is Dispatch ==> r.status == 500 && r.body@ == "Failed to evaluate"@,
{
    match reply {
        EngineReply::Success(resp) => HttpReply { status: 200, body: serialize_response(&resp) },
        EngineReply::Failure(e) => HttpReply { status: 200, body: serialize_error(&e) },
        EngineReply::ContextError => HttpReply {
            status: 400,
            body: "Invalid context".to_owned(),
        },
        EngineReply::Dispatch => HttpReply {
            status: 500,
            body: "Failed to evaluate".to_owned(),
        },
    }
}

/// Evaluates the document stored under `file_name` against `context`,
/// tracing disabled and depth unset. A name never saved, or stored content
/// that does not parse as a decision document, is answered with 500 and a
/// generic message; nothing is evaluated in either case. A dispatched run
/// ends in 200 with the outcome, 400 for a context the engine's types
/// refuse, or 500 for a dispatch failure.
pub fn evaluate_named(store: &RuleStore, file_name: &String, context: &serde_json::Value) -> (r:
    HttpReply)
    requires
        store.wf(),
    ensures
        !store.as_map().contains_key(file_name@) ==> r.status == 500 && r.body@
            == "Failed to read file"@,
        store.as_map().contains_key(file_name@) && !decision_parses(
            store.as_map()[file_name@],
        ) ==> r.status == 500 && r.body@ == "Failed to parse rule file"@,
        r.status == 200 ==> store.as_map().contains_key(file_name@) && decision_parses(
            store.as_map()[file_name@],
        ),
        store.as_map().contains_key(file_name@) && decision_parses(store.as_map()[file_name@])
            ==> (r.status == 200 || (r.status == 400 && r.body@ == "Invalid context"@) || (r.status
            == 500 && r.body@ == "Failed to evaluate"@)),
        r.status == 200 || r.status == 400 || r.status == 500,
{
    let content_str = match store.load(file_name) {
        Some(c) => c,
        None => {
            return HttpReply { status: 500, body: "Failed to read file".to_owned() };
        },
    };
    let content = match parse_decision(content_str.as_str()) {
        Some(c) => c,
        None => {
            return HttpReply { status: 500, body: "Failed to parse rule file".to_owned() };
        },
    };
    let reply = evaluate(content, context, &EvalOptions { trace: false, max_depth: None });
    named_reply(reply)
}

/// Handles an evaluation-by-name request body. A malformed body, or one
/// without a `context` field and a string `file_name` field, is the
/// client's error: nothing is loaded or evaluated and the reply says so
/// with 400. A well-formed request is resolved through the store and
/// answered as `evaluate_named` promises, for the body's own `file_name`.
pub fn evaluate_body(store: &RuleStore, body: &str) -> (r: HttpReply)
    requires
        store.wf(),
    ensures
        !eval_fields_ok(body@) ==> r.status == 400 && r.body@ == "Invalid request body"@,
        !json_parses(body@) ==> r.status == 400,
        eval_fields_ok(body@) && !store.as_map().contains_key(eval_name_of(body@)) ==> r.status
            == 500 && r.body@ == "Failed to read file"@,
        eval_fields_ok(body@) && store.as_map().contains_key(eval_name_of(body@))
            && !decision_parses(store.as_map()[eval_name_of(body@)]) ==> r.status == 500 && r.body@
            == "Failed to parse rule file"@,
        r.status == 200 ==> eval_fields_ok(body@) && store.as_map().contains_key(
            eval_name_of(body@),
        ) && decision_parses(store.as_map()[eval_name_of(body@)]),
        r.status == 200 || r.status == 400 || r.status == 500,
{
    let (context, file_name) = match parse_eval_fields(body) {
        Some(p) => p,
        None => {
            return client_error();
        },
    };
    evaluate_named(store, &file_name, &context)
}

/// Saves `json` under `name`: 200 once stored, 400 when the name is
/// rejected as unsafe, and in that case the store is left unchanged.
pub fn save_named(store: &mut RuleStore, name: String, json: String) -> (r: HttpReply)
    requires
        old(store).wf(),
    ensures
        final(store).wf(),
        safe_name(name@) ==> r.status == 200 && r.body@ == "File saved successfully"@
            && final(store).as_map() == old(store).as_map().insert(name@, json@),
        !safe_name(name@) ==> r.status == 400 && r.body@ == "Invalid file name"@
            && final(store).as_map() == old(store).as_map(),
{
    match store.save(name, json) {
        Ok(()) => HttpReply { status: 200, body: "File saved successfully".to_owned() },
        Err(StoreError::UnsafeName) => HttpReply {
            status: 400,
            body: "Invalid file name".to_owned(),
        },
    }
}

/// Handles a save request body. A malformed body, or one without string
/// `name` and `json` fields, is the client's error and the store is left
/// unchanged; a well-formed request inserts the body's own `json` under
/// its own `name` exactly when that name is safe, and is otherwise
/// rejected with the store unchanged.
pub fn save_body(store: &mut RuleStore, body: &str) -> (r: HttpReply)
    requires
        old(store).wf(),
    ensures
        final(store).wf(),
        !save_fields_ok(body@) ==> r.status == 400 && r.body@ == "Invalid request body"@,
        !json_parses(body@) ==> r.status == 400,
        save_fields_ok(body@) && safe_name(save_name_of(body@)) ==> r.status == 200 && r.body@
            == "File saved successfully"@ && final(store).as_map() == old(store).as_map().insert(
            save_name_of(body@),
            save_json_of(body@),
        ),
        save_fields_ok(body@) && !safe_name(save_name_of(body@)) ==> r.status == 400 && r.body@
            == "Invalid file name"@,
        r.status != 200 ==> final(store).as_map() == old(store).as_map(),
        r.status == 200 || r.status == 400,
{
    let (name, json) = match parse_save_fields(body) {
        Some(p) => p,
        None => {
            return client_error();
        },
    };
    save_named(store, name, json)
}

/// The `name` and `json` fields of a save request body, exactly when the
/// body is well-formed and holds both as strings: what a durable copy of
/// the store writes through after a successful save.
pub fn parse_save_request(body: &str) -> (r: Option<(String, String)>)
    ensures
        r is Some <==> save_fields_ok(body@),
        r matches Some(p) ==> p.0@ == save_name_of(body@) && p.1@ == save_json_of(body@),
{
    parse_save_fields(body)
}

/// Answers a get-by-name request: the stored content beside its name, or
/// 404 when the name was never saved.
pub fn get_file(store: &RuleStore, name: &String) -> (r: HttpReply)
    requires
        store.wf(),
    ensures
        store.as_map().contains_key(name@) ==> r.status == 200 && r.body@ == file_object_json(
            name@,
            store.as_map()[name@],
        ),
        !store.as_map().contains_key(name@) ==> r.status == 404 && r.body@ == "File not found"@,
{
    match store.load(name) {
        Some(content) => {
            let body = render_file_object(name.as_str(), content.as_str());
            HttpReply { status: 200, body }
        },
        None => HttpReply { status: 404, body: "File not found".to_owned() },
    }
}

/// Answers a listing request: a JSON array holding every stored name
/// exactly once, in no promised order.
pub fn list_files(store: &RuleStore) -> (r: HttpReply)
    requires
        store.wf(),
    ensures
        r.status == 200,
        exists|names: Seq<String>|
            listed_names(names) == store.as_map().dom() && (forall|i: int, j: int|
                0 <= i < j < names.len() ==> names[i]@ != names[j]@) && r.body@
                == string_array_json(names.map_values(|s: String| s@)),
{
    let names = store.list();
    let body = render_string_array(&names);
    proof {
        let ghost w = names@;
        assert(listed_names(w) == store.as_map().dom() && (forall|i: int, j: int|
            0 <= i < j < w.len() ==> w[i]@ != w[j]@) && body@ == string_array_json(
            w.map_values(|s: String| s@),
        ));
    }
    HttpReply { status: 200, body }
}

} // verus!
