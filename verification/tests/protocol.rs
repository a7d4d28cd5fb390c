use mcp_core::dispatcher::{
    dispatch, dispatch_http, dispatch_shared, handle_parsed, http_status, is_json_content_type,
    Dispatch, Outcome,
};
use mcp_core::json::Json;
use mcp_core::rpc::{JsonRpcRequest, JsonRpcResponse};
use mcp_core::server::McpServerState;

fn server() -> McpServerState {
    McpServerState::new_with_tools(8080, Vec::new())
}

fn single(state: &mut McpServerState, body: &str) -> Outcome {
    match dispatch(state, "default", 1_000, body.as_bytes()) {
        Dispatch::Single(outcome) => outcome,
        Dispatch::Batch(_) => panic!("a single request was answered as a batch"),
    }
}

fn reply(state: &mut McpServerState, body: &str) -> JsonRpcResponse {
    match single(state, body) {
        Outcome::Reply(r) => r,
        other => panic!("expected a reply, got {:?}", other),
    }
}

fn error_code(r: &JsonRpcResponse) -> i32 {
    r.error.as_ref().expect("an error").code
}

#[test]
fn ping_answers_empty_result_under_numeric_id() {
    let mut state = server();
    let r = reply(&mut state, r#"{"jsonrpc":"2.0","id":7,"method":"ping"}"#);
    assert_eq!(r.jsonrpc, "2.0");
    assert_eq!(r.id, Some(Json::Number("7".to_string())));
    assert_eq!(r.result, Some(Json::Object(Vec::new())));
    assert!(r.error.is_none());
}

#[test]
fn ping_answers_under_string_id() {
    let mut state = server();
    let r = reply(&mut state, r#"{"jsonrpc":"2.0","id":"abc","method":"ping","params":{"x":1}}"#);
    assert_eq!(r.id, Some(Json::Text("abc".to_string())));
    assert_eq!(r.result, Some(Json::Object(Vec::new())));
}

#[test]
fn request_with_null_id_is_a_notification() {
    let mut state = server();
    let d = dispatch(&mut state, "default", 5, br#"{"jsonrpc":"2.0","id":null,"method":"ping"}"#);
    assert_eq!(d, Dispatch::Single(Outcome::Accepted));
    assert_eq!(http_status(&d), 202);
    let doc = Json::Object(vec![
        ("jsonrpc".to_string(), Json::Text("2.0".to_string())),
        ("id".to_string(), Json::Null),
        ("method".to_string(), Json::Text("ping".to_string())),
    ]);
    let req = JsonRpcRequest::from_json(&doc).expect("a request");
    assert_eq!(req.id, None);
    assert!(req.is_notification());
}

#[test]
fn notification_is_accepted_without_answer() {
    let mut state = server();
    let d = dispatch(&mut state, "default", 5, br#"{"jsonrpc":"2.0","method":"ping"}"#);
    assert_eq!(d, Dispatch::Single(Outcome::Accepted));
    assert_eq!(http_status(&d), 202);
}

#[test]
fn notification_of_unknown_method_is_accepted_without_answer() {
    let mut state = server();
    let d = dispatch(&mut state, "default", 5, br#"{"jsonrpc":"2.0","method":"nope"}"#);
    assert_eq!(d, Dispatch::Single(Outcome::Accepted));
}

#[test]
fn body_that_is_no_json_gives_parse_error() {
    let mut state = server();
    let d = dispatch(&mut state, "default", 5, b"{not json");
    assert_eq!(http_status(&d), 200);
    let r = match d {
        Dispatch::Single(Outcome::Reply(r)) => r,
        other => panic!("expected a reply, got {:?}", other),
    };
    assert_eq!(error_code(&r), -32700);
    assert_eq!(r.id, None);
    assert_eq!(r.result, None);
    let message = &r.error.as_ref().unwrap().message;
    assert!(message.starts_with("Parse error: "));
    assert!(message.len() > "Parse error: ".len());
    assert_eq!(state.sessions.len(), 0);
}

#[test]
fn empty_body_gives_parse_error() {
    let mut state = server();
    let r = reply(&mut state, "");
    assert_eq!(error_code(&r), -32700);
}

#[test]
fn body_that_is_not_utf8_gives_parse_error() {
    let mut state = server();
    let d = dispatch(&mut state, "default", 5, &[0xff, 0xfe, 0x7b, 0x7d]);
    match d {
        Dispatch::Single(Outcome::Reply(r)) => assert_eq!(error_code(&r), -32700),
        other => panic!("expected a reply, got {:?}", other),
    }
}

#[test]
fn document_without_method_gives_parse_error() {
    let mut state = server();
    let r = reply(&mut state, r#"{"jsonrpc":"2.0","id":3}"#);
    assert_eq!(error_code(&r), -32700);
    assert_eq!(r.error.unwrap().message, "Parse error: missing field `method`");
    assert_eq!(r.id, None);
}

#[test]
fn document_without_version_gives_parse_error() {
    let mut state = server();
    let r = reply(&mut state, r#"{"id":3,"method":"ping"}"#);
    assert_eq!(r.error.unwrap().message, "Parse error: missing field `jsonrpc`");
}

#[test]
fn document_that_is_no_object_gives_parse_error() {
    let mut state = server();
    let r = reply(&mut state, "42");
    assert_eq!(
        r.error.unwrap().message,
        "Parse error: invalid type: expected a request object"
    );
}

#[test]
fn method_that_is_no_string_gives_parse_error() {
    let mut state = server();
    let r = reply(&mut state, r#"{"jsonrpc":"2.0","id":3,"method":5}"#);
    assert_eq!(
        r.error.unwrap().message,
        "Parse error: invalid type: field `method` must be a string"
    );
}

#[test]
fn unknown_method_gives_method_not_found_under_its_id() {
    let mut state = server();
    let r = reply(&mut state, r#"{"jsonrpc":"2.0","id":"q-1","method":"tools/destroy"}"#);
    assert_eq!(error_code(&r), -32601);
    assert_eq!(r.id, Some(Json::Text("q-1".to_string())));
    assert_eq!(r.result, None);
    assert_eq!(r.error.unwrap().message, "Method not found: tools/destroy");
}

#[test]
fn request_decoding_keeps_id_method_and_params() {
    let doc = Json::Object(vec![
        ("jsonrpc".to_string(), Json::Text("2.0".to_string())),
        ("id".to_string(), Json::Number("12".to_string())),
        ("method".to_string(), Json::Text("tools/call".to_string())),
        ("params".to_string(), Json::Object(vec![("name".to_string(), Json::Text("x".to_string()))])),
    ]);
    let req = JsonRpcRequest::from_json(&doc).expect("a request");
    assert_eq!(req.jsonrpc, "2.0");
    assert_eq!(req.id, Some(Json::Number("12".to_string())));
    assert_eq!(req.method, "tools/call");
    assert_eq!(
        req.params,
        Some(Json::Object(vec![("name".to_string(), Json::Text("x".to_string()))]))
    );
    assert!(!req.is_notification());
}

#[test]
fn null_params_count_as_absent() {
    let doc = Json::Object(vec![
        ("jsonrpc".to_string(), Json::Text("2.0".to_string())),
        ("method".to_string(), Json::Text("ping".to_string())),
        ("params".to_string(), Json::Null),
    ]);
    let req = JsonRpcRequest::from_json(&doc).expect("a request");
    assert_eq!(req.params, None);
    assert!(req.is_notification());
}

#[test]
fn batch_serves_every_entry_in_order() {
    let mut state = server();
    let body = r#"[
        {"jsonrpc":"2.0","id":1,"method":"ping"},
        {"jsonrpc":"2.0","method":"initialized"},
        {"jsonrpc":"2.0","id":2,"method":"bogus"},
        17
    ]"#;
    let d = dispatch(&mut state, "default", 9, body.as_bytes());
    assert_eq!(http_status(&d), 200);
    let outcomes = match d {
        Dispatch::Batch(outcomes) => outcomes,
        other => panic!("expected a batch, got {:?}", other),
    };
    assert_eq!(outcomes.len(), 4);
    match &outcomes[0] {
        Outcome::Reply(r) => {
            assert_eq!(r.id, Some(Json::Number("1".to_string())));
            assert_eq!(r.result, Some(Json::Object(Vec::new())));
        }
        other => panic!("expected a reply, got {:?}", other),
    }
    assert_eq!(outcomes[1], Outcome::Accepted);
    match &outcomes[2] {
        Outcome::Reply(r) => {
            assert_eq!(r.error.as_ref().unwrap().code, -32601);
            assert_eq!(r.id, Some(Json::Number("2".to_string())));
        }
        other => panic!("expected a reply, got {:?}", other),
    }
    match &outcomes[3] {
        Outcome::Reply(r) => assert_eq!(r.error.as_ref().unwrap().code, -32700),
        other => panic!("expected a reply, got {:?}", other),
    }
    let session = state.sessions.get("default").expect("the notification opened the session");
    assert!(session.initialized);
}

#[test]
fn batch_of_notifications_is_accepted() {
    let mut state = server();
    let body = r#"[{"jsonrpc":"2.0","method":"ping"},{"jsonrpc":"2.0","method":"initialized"}]"#;
    let d = dispatch(&mut state, "default", 9, body.as_bytes());
    assert_eq!(d, Dispatch::Batch(vec![Outcome::Accepted, Outcome::Accepted]));
    assert_eq!(http_status(&d), 202);
}

#[test]
fn empty_batch_is_accepted() {
    let mut state = server();
    let d = dispatch(&mut state, "default", 9, b"[]");
    assert_eq!(d, Dispatch::Batch(Vec::new()));
    assert_eq!(http_status(&d), 202);
}

#[test]
fn body_sent_as_something_else_than_json_gives_parse_error() {
    let mut state = server();
    let body = br#"{"jsonrpc":"2.0","id":1,"method":"initialize"}"#;
    let d = dispatch_http(&mut state, "default", 5, Some("text/plain"), body);
    match d {
        Dispatch::Single(Outcome::Reply(r)) => {
            assert_eq!(error_code(&r), -32700);
            assert_eq!(r.id, None);
            assert_eq!(r.error.unwrap().message, "Parse error: unsupported content type");
        }
        other => panic!("expected a reply, got {:?}", other),
    }
    assert_eq!(state.sessions.len(), 0);
}

#[test]
fn body_sent_as_json_is_served() {
    let mut state = server();
    let body = br#"{"jsonrpc":"2.0","id":1,"method":"ping"}"#;
    let accepted = [Some("application/json"), Some("application/json; charset=utf-8"), None];
    for content_type in accepted {
        match dispatch_http(&mut state, "default", 5, content_type, body) {
            Dispatch::Single(Outcome::Reply(r)) => assert!(r.error.is_none()),
            other => panic!("expected a reply, got {:?}", other),
        }
    }
}

#[test]
fn content_type_names_json_only_as_application_json() {
    assert!(is_json_content_type("application/json"));
    assert!(is_json_content_type("application/json;charset=utf-8"));
    assert!(!is_json_content_type("application/jsonp"));
    assert!(!is_json_content_type("application/json-seq"));
    assert!(!is_json_content_type("application/jso"));
    assert!(!is_json_content_type("text/json; application/json"));
    assert!(!is_json_content_type(""));
}

#[test]
fn parsed_body_is_served_without_reading_it_again() {
    let mut state = server();
    let doc = Json::Object(vec![
        ("jsonrpc".to_string(), Json::Text("2.0".to_string())),
        ("id".to_string(), Json::Number("4".to_string())),
        ("method".to_string(), Json::Text("ping".to_string())),
    ]);
    match handle_parsed(&mut state, "default", 1, Ok(doc)) {
        Dispatch::Single(Outcome::Reply(r)) => {
            assert_eq!(r.id, Some(Json::Number("4".to_string())));
            assert_eq!(r.result, Some(Json::Object(Vec::new())));
        }
        other => panic!("expected a reply, got {:?}", other),
    }
    match handle_parsed(&mut state, "default", 1, Err("expected value at line 1".to_string())) {
        Dispatch::Single(Outcome::Reply(r)) => {
            assert_eq!(r.error.unwrap().message, "Parse error: expected value at line 1");
        }
        other => panic!("expected a reply, got {:?}", other),
    }
    let d = handle_parsed(&mut state, "default", 1, Ok(Json::Array(vec![Json::Null])));
    match d {
        Dispatch::Batch(outcomes) => assert_eq!(outcomes.len(), 1),
        other => panic!("expected a batch, got {:?}", other),
    }
}

#[test]
fn reading_requests_are_served_on_a_shared_server() {
    let state = server();
    let ping = br#"{"jsonrpc":"2.0","id":1,"method":"ping"}"#;
    match dispatch_shared(&state, "default", 1, ping) {
        Some(Dispatch::Single(Outcome::Reply(r))) => assert!(r.error.is_none()),
        other => panic!("expected a reply, got {:?}", other),
    }
    let list = br#"{"jsonrpc":"2.0","id":1,"method":"tools/list"}"#;
    assert!(dispatch_shared(&state, "default", 1, list).is_some());
    assert!(dispatch_shared(&state, "default", 1, b"not json").is_some());
    assert!(dispatch_shared(&state, "default", 1, b"{}").is_some());
    let note = br#"{"jsonrpc":"2.0","method":"resources/list"}"#;
    assert_eq!(
        dispatch_shared(&state, "default", 1, note),
        Some(Dispatch::Single(Outcome::Accepted))
    );
}

#[test]
fn changing_requests_and_batches_need_the_server_alone() {
    let state = server();
    let init = br#"{"jsonrpc":"2.0","id":1,"method":"initialize"}"#;
    assert_eq!(dispatch_shared(&state, "default", 1, init), None);
    let done = br#"{"jsonrpc":"2.0","method":"initialized"}"#;
    assert_eq!(dispatch_shared(&state, "default", 1, done), None);
    assert_eq!(dispatch_shared(&state, "default", 1, b"[]"), None);
    let batch = br#"[{"jsonrpc":"2.0","id":1,"method":"ping"}]"#;
    assert_eq!(dispatch_shared(&state, "default", 1, batch), None);
}
