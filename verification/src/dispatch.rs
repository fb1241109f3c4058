//! The evaluation dispatcher: runs a decision document through the outside
//! zen-engine rule engine and normalizes engine outcomes.
//!
//! Every call into the outside crates is made by a small trusted wrapper
//! whose contract states no more than the outside source shows; the logic
//! around the calls is verified.

use vstd::prelude::*;

verus! {

#[verifier::external_type_specification]
#[verifier::external_body]
pub struct ExValue(serde_json::Value);

#[verifier::external_type_specification]
#[verifier::external_body]
pub struct ExDecisionContent(zen_engine::model::DecisionContent);

#[verifier::external_type_specification]
#[verifier::external_body]
pub struct ExDecision(zen_engine::Decision);

#[verifier::external_type_specification]
#[verifier::external_body]
pub struct ExVariable(zen_engine::Variable);

#[verifier::external_type_specification]
#[verifier::external_body]
pub struct ExDecisionGraphResponse(zen_engine::DecisionGraphResponse);

#[verifier::external_type_specification]
#[verifier::external_body]
pub struct ExEvaluationError(zen_engine::EvaluationError);

/// Whether `s` parses as a decision document, as zen-engine's serde schema
/// decides it: a function of the text alone.
pub uninterp spec fn decision_parses(s: Seq<char>) -> bool;

/// Relies on serde_json::from_str::<DecisionContent>, whose success
/// depends on the text alone.
#[verifier::external_body]
pub(crate) fn parse_decision(s: &str) -> (r: Option<zen_engine::model::DecisionContent>)
    ensures
        r is Some <==> decision_parses(s@),
{
    serde_json::from_str::<zen_engine::model::DecisionContent>(s).ok()
}

/// Relies on zen_engine::Decision::from, which wraps a decision document
/// for evaluation with no loader and no custom nodes, exactly what the
/// default engine hands back for a freshly created decision.
#[verifier::external_body]
pub(crate) fn make_decision(content: zen_engine::model::DecisionContent) -> (d:
    zen_engine::Decision) {
    zen_engine::Decision::from(content)
}

/// Relies on zen_engine::Variable's serde Deserialize impl: a JSON value
/// either converts to an engine variable or is refused with an error.
/// Unlike the engine's infallible From conversion, the serde path does not
/// panic on a number outside the engine's decimal range: it reports it.
#[verifier::external_body]
fn context_variable(v: &serde_json::Value) -> (r: Option<zen_engine::Variable>) {
    serde_json::from_value::<zen_engine::Variable>(v.clone()).ok()
}

/// One engine run as the dispatcher sees it: the engine returned a result,
/// the engine reported a structured evaluation failure, the context held a
/// value the engine's types cannot carry, or the run could not be
/// dispatched at all.
pub enum EngineReply {
    Success(zen_engine::DecisionGraphResponse),
    Failure(Box<zen_engine::EvaluationError>),
    ContextError,
    Dispatch,
}

/// Evaluation options the service recognizes: whether the engine records a
/// trace, and an optional depth bound, unset meaning the engine's default.
pub struct EvalOptions {
    pub trace: bool,
    pub max_depth: Option<u8>,
}

/// Relies on zen_engine::Decision::evaluate_with_opts: synchronous,
/// CPU-bound work behind an async signature, driven to completion on a
/// runtime built for the call; a runtime that cannot be built is a
/// dispatch failure. The trace flag and depth bound pass through
/// uninterpreted. Blocking on the built runtime is only sound on a thread
/// that may block: the service reaches this from a dedicated blocking
/// worker, never from an async worker thread, where tokio refuses to
/// block.
#[verifier::external_body]
fn run_decision(
    d: &zen_engine::Decision,
    context: zen_engine::Variable,
    trace: bool,
    max_depth: Option<u8>,
) -> (r: EngineReply) {
    let rt = match tokio::runtime::Builder::new_current_thread().build() {
        Ok(rt) => rt,
        Err(_) => {
            return EngineReply::Dispatch;
        },
    };
    let mut opts = zen_engine::EvaluationOptions::default();
    opts.trace = trace;
    if let Some(depth) = max_depth {
        opts.max_depth = depth;
    }
    match rt.block_on(d.evaluate_with_opts(context, opts)) {
        Ok(resp) => EngineReply::Success(resp),
        Err(e) => EngineReply::Failure(e),
    }
}

/// Relies on serde_json::to_string on zen-engine's response value, which
/// serializes the result and any recorded trace.
#[verifier::external_body]
pub(crate) fn serialize_response(r: &zen_engine::DecisionGraphResponse) -> (s: String) {
    serde_json::to_string(r).unwrap_or_default()
}

/// Relies on serde_json::to_string on zen-engine's structured evaluation
/// error.
#[verifier::external_body]
pub(crate) fn serialize_error(e: &zen_engine::EvaluationError) -> (s: String) {
    serde_json::to_string(e).unwrap_or_default()
}

/// Runs `content` against `context` under `options`. Each call builds its
/// own engine state, retries nothing and caches nothing; every outcome,
/// success, structured failure, refused context or dispatch failure, is
/// handed back for the mapper to answer.
pub fn evaluate(
    content: zen_engine::model::DecisionContent,
    context: &serde_json::Value,
    options: &EvalOptions,
) -> (r: EngineReply) {
    let var = match context_variable(context) {
        Some(v) => v,
        None => {
            return EngineReply::ContextError;
        },
    };
    let d = make_decision(content);
    run_decision(&d, var, options.trace, options.max_depth)
}

} // verus!
