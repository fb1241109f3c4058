use decision_service::mapper::{
    evaluate_body, get_file, health_reply, list_files, parse_save_request, save_body, save_named,
    simulate,
};
use decision_service::store::RuleStore;

const VALID_DOC: &str = "{\"nodes\":[{\"id\":\"n1\",\"name\":\"request\",\"type\":\"inputNode\"},{\"id\":\"n2\",\"name\":\"response\",\"type\":\"outputNode\"}],\"edges\":[{\"id\":\"e1\",\"sourceId\":\"n1\",\"targetId\":\"n2\"}]}";

// No input node: the engine reports a structured InvalidGraph failure.
const FAILING_DOC: &str =
    "{\"nodes\":[{\"id\":\"n2\",\"name\":\"response\",\"type\":\"outputNode\"}],\"edges\":[]}";

fn simulate_body_for(doc: &str, context: &str) -> String {
    format!("{{\"context\":{},\"content\":{}}}", context, doc)
}

#[test]
fn health_is_200_healthy() {
    let r = health_reply();
    assert_eq!(r.status, 200);
    assert_eq!(r.body, "healthy");
}

#[test]
fn simulate_malformed_json_is_client_error() {
    for body in ["{not json", "", "[1,2", "{\"context\":"] {
        let r = simulate(body);
        assert_eq!(r.status, 400);
    }
}

#[test]
fn simulate_missing_fields_is_client_error() {
    assert_eq!(simulate("{\"context\":{}}").status, 400);
    assert_eq!(simulate("{\"content\":{}}").status, 400);
    assert_eq!(simulate("42").status, 400);
}

#[test]
fn simulate_valid_document_succeeds_with_trace() {
    let r = simulate(&simulate_body_for(VALID_DOC, "{\"a\":1}"));
    assert_eq!(r.status, 200);
    let v: serde_json::Value = serde_json::from_str(&r.body).unwrap();
    assert!(v.get("result").is_some());
    assert!(v.get("trace").is_some());
}

#[test]
fn simulate_failing_document_returns_structured_error() {
    let r = simulate(&simulate_body_for(FAILING_DOC, "{}"));
    assert_eq!(r.status, 400);
    let v: serde_json::Value = serde_json::from_str(&r.body).unwrap();
    assert_eq!(v.get("type").and_then(|t| t.as_str()), Some("InvalidGraph"));
}

// A rule whose expression cannot be evaluated: the engine reports a
// structured NodeError failure, and the service answers, it does not crash.
const RULE_ERROR_DOC: &str = "{\"nodes\":[{\"id\":\"n1\",\"name\":\"request\",\"type\":\"inputNode\"},{\"id\":\"n3\",\"name\":\"calc\",\"type\":\"expressionNode\",\"content\":{\"expressions\":[{\"id\":\"x1\",\"key\":\"x\",\"value\":\"foo(1)\"}]}},{\"id\":\"n2\",\"name\":\"response\",\"type\":\"outputNode\"}],\"edges\":[{\"id\":\"e1\",\"sourceId\":\"n1\",\"targetId\":\"n3\"},{\"id\":\"e2\",\"sourceId\":\"n3\",\"targetId\":\"n2\"}]}";

#[test]
fn simulate_rule_error_returns_structured_failure() {
    let r = simulate(&simulate_body_for(RULE_ERROR_DOC, "{}"));
    assert_eq!(r.status, 400);
    let v: serde_json::Value = serde_json::from_str(&r.body).unwrap();
    assert_eq!(v.get("type").and_then(|t| t.as_str()), Some("NodeError"));
    assert!(v.get("nodeId").is_some());
}

#[test]
fn evaluate_by_name_surfaces_engine_failure_with_200() {
    let mut store = RuleStore::new();
    assert!(store.save("failing".to_string(), RULE_ERROR_DOC.to_string()).is_ok());
    let r = evaluate_body(&store, "{\"context\":{},\"file_name\":\"failing\"}");
    assert_eq!(r.status, 200);
    let v: serde_json::Value = serde_json::from_str(&r.body).unwrap();
    assert_eq!(v.get("type").and_then(|t| t.as_str()), Some("NodeError"));
}

#[test]
fn evaluate_malformed_json_is_client_error() {
    let store = RuleStore::new();
    assert_eq!(evaluate_body(&store, "{not json").status, 400);
    assert_eq!(evaluate_body(&store, "{\"context\":{}}").status, 400);
    assert_eq!(evaluate_body(&store, "{\"context\":{},\"file_name\":7}").status, 400);
}

#[test]
fn evaluate_unknown_name_is_server_error() {
    let store = RuleStore::new();
    let r = evaluate_body(&store, "{\"context\":{},\"file_name\":\"nonexistent-name\"}");
    assert_eq!(r.status, 500);
    assert_eq!(r.body, "Failed to read file");
}

#[test]
fn evaluate_unparseable_stored_content_is_server_error() {
    let mut store = RuleStore::new();
    assert!(store.save("bad".to_string(), "not a document".to_string()).is_ok());
    let r = evaluate_body(&store, "{\"context\":{},\"file_name\":\"bad\"}");
    assert_eq!(r.status, 500);
    assert_eq!(r.body, "Failed to parse rule file");
}

#[test]
fn get_file_of_unknown_name_is_404() {
    let store = RuleStore::new();
    let r = get_file(&store, &"never-saved".to_string());
    assert_eq!(r.status, 404);
    assert_eq!(r.body, "File not found");
}

#[test]
fn get_file_escapes_content() {
    let mut store = RuleStore::new();
    let tricky = "line\n\"quoted\"\t\\end\u{1}";
    assert!(store.save("t".to_string(), tricky.to_string()).is_ok());
    let r = get_file(&store, &"t".to_string());
    assert_eq!(r.status, 200);
    assert_eq!(
        r.body,
        "{\"name\":\"t\",\"content\":\"line\\n\\\"quoted\\\"\\t\\\\end\\u0001\"}"
    );
    let v: serde_json::Value = serde_json::from_str(&r.body).unwrap();
    assert_eq!(v.get("content").and_then(|c| c.as_str()), Some(tricky));
}

#[test]
fn list_files_renders_name_array() {
    let mut store = RuleStore::new();
    assert_eq!(list_files(&store).body, "[]");
    assert!(store.save("a".to_string(), "1".to_string()).is_ok());
    let r = list_files(&store);
    assert_eq!(r.status, 200);
    assert_eq!(r.body, "[\"a\"]");
    assert!(store.save("b".to_string(), "2".to_string()).is_ok());
    let r2 = list_files(&store);
    let v: serde_json::Value = serde_json::from_str(&r2.body).unwrap();
    let mut names: Vec<&str> = v.as_array().unwrap().iter().map(|x| x.as_str().unwrap()).collect();
    names.sort();
    assert_eq!(names, vec!["a", "b"]);
}

#[test]
fn save_body_rejects_malformed_and_incomplete_bodies() {
    let mut store = RuleStore::new();
    assert_eq!(save_body(&mut store, "{oops").status, 400);
    assert_eq!(save_body(&mut store, "{\"name\":\"r1\"}").status, 400);
    assert_eq!(save_body(&mut store, "{\"name\":3,\"json\":\"x\"}").status, 400);
    assert_eq!(store.list().len(), 0);
}

#[test]
fn save_body_rejects_path_escape() {
    let mut store = RuleStore::new();
    let r = save_body(&mut store, "{\"name\":\"../../etc/passwd\",\"json\":\"x\"}");
    assert_eq!(r.status, 400);
    assert_eq!(r.body, "Invalid file name");
    assert_eq!(store.list().len(), 0);
}

#[test]
fn save_named_reports_success_text() {
    let mut store = RuleStore::new();
    let r = save_named(&mut store, "r1".to_string(), "{}".to_string());
    assert_eq!(r.status, 200);
    assert_eq!(r.body, "File saved successfully");
}

#[test]
fn parse_save_request_extracts_fields() {
    assert!(parse_save_request("{nope").is_none());
    assert!(parse_save_request("{\"name\":\"r1\"}").is_none());
    let (name, json) = parse_save_request("{\"name\":\"r1\",\"json\":\"{}\"}").unwrap();
    assert_eq!(name, "r1");
    assert_eq!(json, "{}");
}

// A context holding a number outside the engine's decimal range must be
// refused as a client error, not crash the service.
#[test]
fn simulate_refuses_out_of_range_context_numbers() {
    let r = simulate(&simulate_body_for(VALID_DOC, "1e300"));
    assert_eq!(r.status, 400);
    assert_eq!(r.body, "Invalid context");
    let nested = simulate(&simulate_body_for(VALID_DOC, "{\"n\":123456789012345678901234567890}"));
    assert_eq!(nested.status, 400);
    assert_eq!(nested.body, "Invalid context");
}

#[test]
fn evaluate_by_name_refuses_out_of_range_context_numbers() {
    let mut store = RuleStore::new();
    assert!(store.save("r1".to_string(), VALID_DOC.to_string()).is_ok());
    let r = evaluate_body(&store, "{\"context\":1e300,\"file_name\":\"r1\"}");
    assert_eq!(r.status, 400);
    assert_eq!(r.body, "Invalid context");
}

#[test]
fn dispatcher_applies_depth_bound() {
    let ctx: serde_json::Value = serde_json::from_str("{}").unwrap();
    let content: zen_engine::model::DecisionContent = serde_json::from_str(VALID_DOC).unwrap();
    let bounded = decision_service::dispatch::evaluate(
        content,
        &ctx,
        &decision_service::dispatch::EvalOptions { trace: false, max_depth: Some(0) },
    );
    assert!(matches!(bounded, decision_service::dispatch::EngineReply::Failure(_)));

    let content2: zen_engine::model::DecisionContent = serde_json::from_str(VALID_DOC).unwrap();
    let unbounded = decision_service::dispatch::evaluate(
        content2,
        &ctx,
        &decision_service::dispatch::EvalOptions { trace: false, max_depth: None },
    );
    assert!(matches!(unbounded, decision_service::dispatch::EngineReply::Success(_)));
}

// The full client scenario: save a document, read it back verbatim, then
// evaluate it by name and inline and compare the results; only the inline
// path carries a trace.
#[test]
fn save_get_evaluate_scenario() {
    let mut store = RuleStore::new();
    let save_request = format!(
        "{{\"name\":\"r1\",\"json\":{}}}",
        serde_json::to_string(VALID_DOC).unwrap()
    );
    let saved = save_body(&mut store, &save_request);
    assert_eq!(saved.status, 200);

    let got = get_file(&store, &"r1".to_string());
    assert_eq!(got.status, 200);
    let g: serde_json::Value = serde_json::from_str(&got.body).unwrap();
    assert_eq!(g.get("name").and_then(|v| v.as_str()), Some("r1"));
    assert_eq!(g.get("content").and_then(|v| v.as_str()), Some(VALID_DOC));

    let context = "{\"customer\":{\"age\":30}}";
    let by_name = evaluate_body(
        &store,
        &format!("{{\"context\":{},\"file_name\":\"r1\"}}", context),
    );
    assert_eq!(by_name.status, 200);
    let inline = simulate(&simulate_body_for(VALID_DOC, context));
    assert_eq!(inline.status, 200);

    let by_name_v: serde_json::Value = serde_json::from_str(&by_name.body).unwrap();
    let inline_v: serde_json::Value = serde_json::from_str(&inline.body).unwrap();
    assert_eq!(by_name_v.get("result"), inline_v.get("result"));
    assert!(inline_v.get("trace").is_some());
    assert!(by_name_v.get("trace").is_none());
}
