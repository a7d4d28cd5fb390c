use mcp_core::dispatcher::{dispatch, Dispatch, Outcome};
use mcp_core::events::{close_session, note_event};
use mcp_core::json::Json;
use mcp_core::registry::{get_available_resources, get_available_tools};
use mcp_core::rpc::JsonRpcResponse;
use mcp_core::server::{
    handle_initialize, handle_initialized, handle_ping, handle_resources_list, handle_tools_list,
    session_key_of, McpServerState, MCP_PROTOCOL_VERSION,
};

fn post(state: &mut McpServerState, session: &str, now: u64, body: &str) -> JsonRpcResponse {
    match dispatch(state, session, now, body.as_bytes()) {
        Dispatch::Single(Outcome::Reply(r)) => r,
        other => panic!("expected a reply, got {:?}", other),
    }
}

fn text_of<'a>(doc: &'a Json, key: &str) -> &'a str {
    doc.get(key).and_then(|v| v.as_str()).expect("a string member")
}

fn listed_names(r: &JsonRpcResponse) -> Vec<String> {
    let result = r.result.as_ref().expect("a result");
    match result.get("tools") {
        Some(Json::Array(items)) => items.iter().map(|t| text_of(t, "name").to_string()).collect(),
        other => panic!("expected an array of tools, got {:?}", other),
    }
}

#[test]
fn initialize_then_list_tools() {
    let mut state = McpServerState::new_with_tools(8080, Vec::new());
    let r = post(
        &mut state,
        "default",
        10,
        r#"{"jsonrpc":"2.0","id":1,"method":"initialize","params":{}}"#,
    );
    assert_eq!(r.id, Some(Json::Number("1".to_string())));
    let result = r.result.expect("a result");
    assert_eq!(text_of(&result, "protocolVersion"), "2025-03-26");
    assert_eq!(text_of(&result, "protocolVersion"), MCP_PROTOCOL_VERSION);
    let info = result.get("serverInfo").expect("serverInfo");
    assert!(!text_of(info, "name").is_empty());
    assert_eq!(text_of(info, "name"), "m3u8-mcp");
    assert_eq!(text_of(info, "version"), "0.1.0");
    assert_eq!(text_of(&result, "sessionId"), "default");
    let capabilities = result.get("capabilities").expect("capabilities");
    assert_eq!(capabilities.get("tools"), Some(&Json::Object(Vec::new())));
    assert_eq!(capabilities.get("resources"), Some(&Json::Object(Vec::new())));
    assert_eq!(capabilities.get("logging"), Some(&Json::Object(Vec::new())));

    let r = post(&mut state, "default", 11, r#"{"jsonrpc":"2.0","id":2,"method":"tools/list"}"#);
    assert_eq!(r.id, Some(Json::Number("2".to_string())));
    let result = r.result.expect("a result");
    let tools = match result.get("tools") {
        Some(Json::Array(items)) => items,
        other => panic!("expected an array of tools, got {:?}", other),
    };
    assert_eq!(tools.len(), 7);
    for tool in tools {
        assert!(!text_of(tool, "name").is_empty());
        assert!(tool.get("inputSchema").expect("inputSchema").is_object());
    }
}

#[test]
fn initialize_twice_keeps_creation_time_and_offer() {
    let enabled = vec!["m3u8_probe".to_string(), "m3u8_parse".to_string()];
    let mut state = McpServerState::new_with_tools(8080, enabled);
    let first = handle_initialize(&mut state, "s1", 100, Some(Json::Number("1".to_string())));
    let after_first = state.sessions.get("s1").expect("a session").duplicate();
    assert_eq!(after_first.created_at, 100);
    assert_eq!(after_first.last_activity, 100);
    assert!(!after_first.initialized);
    assert_eq!(after_first.last_event_id, 0);

    handle_initialized(&mut state, "s1", 150, None);
    let second = handle_initialize(&mut state, "s1", 200, Some(Json::Number("1".to_string())));
    let after_second = state.sessions.get("s1").expect("a session").duplicate();
    assert_eq!(after_second.created_at, 100);
    assert_eq!(after_second.last_activity, 200);
    assert!(after_second.initialized);
    assert_eq!(after_second.tools, after_first.tools);
    assert_eq!(after_second.resources, after_first.resources);
    assert_eq!(first, second);
    assert_eq!(state.sessions.len(), 1);
}

#[test]
fn sessions_are_kept_apart() {
    let mut state = McpServerState::new_with_tools(8080, Vec::new());
    handle_initialize(&mut state, "a", 1, None);
    handle_initialize(&mut state, "b", 2, None);
    handle_initialized(&mut state, "b", 3, None);
    assert_eq!(state.sessions.len(), 2);
    let a = state.sessions.get("a").unwrap();
    assert_eq!((a.created_at, a.last_activity, a.initialized), (1, 1, false));
    let b = state.sessions.get("b").unwrap();
    assert_eq!((b.created_at, b.last_activity, b.initialized), (2, 3, true));
    assert_eq!(b.id, "b");
}

#[test]
fn initialized_opens_the_session_where_there_is_none() {
    let mut state = McpServerState::new(8080);
    let r = handle_initialized(&mut state, "default", 42, Some(Json::Text("x".to_string())));
    assert_eq!(r.result, Some(Json::Object(Vec::new())));
    assert_eq!(r.id, Some(Json::Text("x".to_string())));
    let s = state.sessions.get("default").expect("a session");
    assert!(s.initialized);
    assert_eq!(s.created_at, 42);
    assert_eq!(s.last_activity, 42);
    assert_eq!(s.tools.len(), 5);
    assert_eq!(s.resources.len(), 2);
}

#[test]
fn tools_list_is_the_filtered_catalogue_in_catalogue_order() {
    let enabled = vec![
        "m3u8_probe".to_string(),
        "m3u8_set_url".to_string(),
        "unknown_tool".to_string(),
    ];
    let mut state = McpServerState::new_with_tools(8080, enabled);
    handle_initialize(&mut state, "default", 1, None);
    let r = handle_tools_list(&state, "default", Some(Json::Number("5".to_string())));
    assert_eq!(listed_names(&r), vec!["m3u8_set_url", "m3u8_probe"]);
}

#[test]
fn tools_list_with_empty_allowlist_is_the_whole_catalogue() {
    let mut state = McpServerState::new_with_tools(8080, Vec::new());
    handle_initialize(&mut state, "default", 1, None);
    let r = handle_tools_list(&state, "default", None);
    assert_eq!(
        listed_names(&r),
        vec![
            "m3u8_set_url",
            "m3u8_get_url",
            "m3u8_parse",
            "m3u8_download",
            "m3u8_convert",
            "m3u8_probe",
            "m3u8_extract_segments"
        ]
    );
}

#[test]
fn tools_list_without_session_answers_what_the_allowlist_lets_through() {
    let state = McpServerState::new(8080);
    let r = handle_tools_list(&state, "nobody", None);
    assert_eq!(
        listed_names(&r),
        vec!["m3u8_parse", "m3u8_download", "m3u8_convert", "m3u8_probe", "m3u8_extract_segments"]
    );
    assert_eq!(state.sessions.len(), 0);
}

#[test]
fn tools_list_shows_name_description_and_schema() {
    let state = McpServerState::new_with_tools(8080, vec!["m3u8_probe".to_string()]);
    let r = handle_tools_list(&state, "default", None);
    let result = r.result.expect("a result");
    let expected_tool = get_available_tools(&["m3u8_probe".to_string()]).remove(0);
    let expected = Json::Object(vec![(
        "tools".to_string(),
        Json::Array(vec![Json::Object(vec![
            ("name".to_string(), Json::Text("m3u8_probe".to_string())),
            (
                "description".to_string(),
                Json::Text("Probe m3u8 stream for information".to_string()),
            ),
            ("inputSchema".to_string(), expected_tool.input_schema.clone()),
        ])]),
    )]);
    assert_eq!(result, expected);
    let schema = expected_tool.input_schema;
    assert_eq!(schema.get("type"), Some(&Json::Text("object".to_string())));
    assert_eq!(
        schema.get("required"),
        Some(&Json::Array(vec![Json::Text("url".to_string())]))
    );
    let url = schema.get("properties").unwrap().get("url").unwrap();
    assert_eq!(url.get("type"), Some(&Json::Text("string".to_string())));
    assert_eq!(
        url.get("description"),
        Some(&Json::Text("URL of the m3u8 stream".to_string()))
    );
}

#[test]
fn convert_tool_has_a_numeric_default() {
    let tool = get_available_tools(&["m3u8_convert".to_string()]).remove(0);
    let duration = tool
        .input_schema
        .get("properties")
        .unwrap()
        .get("segment_duration")
        .unwrap();
    assert_eq!(duration.get("default"), Some(&Json::Number("10".to_string())));
    assert_eq!(duration.get("type"), Some(&Json::Text("number".to_string())));
}

#[test]
fn resources_list_shows_both_resources() {
    let mut state = McpServerState::new(8080);
    handle_initialize(&mut state, "default", 1, None);
    let r = handle_resources_list(&state, "default", Some(Json::Number("3".to_string())));
    let result = r.result.expect("a result");
    let items = match result.get("resources") {
        Some(Json::Array(items)) => items,
        other => panic!("expected an array, got {:?}", other),
    };
    assert_eq!(items.len(), 2);
    assert_eq!(
        items[0],
        Json::Object(vec![
            ("uri".to_string(), Json::Text("m3u8://config".to_string())),
            ("name".to_string(), Json::Text("Configuration".to_string())),
            (
                "description".to_string(),
                Json::Text("m3u8 MCP server configuration".to_string())
            ),
            ("mime_type".to_string(), Json::Text("application/json".to_string())),
        ])
    );
    assert_eq!(text_of(&items[1], "uri"), "m3u8://cache/stats");
    assert_eq!(get_available_resources().len(), 2);
}

#[test]
fn ping_handler_echoes_the_id() {
    let r = handle_ping(Some(Json::Number("99".to_string())));
    assert_eq!(r.id, Some(Json::Number("99".to_string())));
    assert_eq!(r.result, Some(Json::Object(Vec::new())));
    assert!(!r.is_error());
}

#[test]
fn default_server_offers_the_five_playlist_tools() {
    let state = McpServerState::new(37650);
    assert_eq!(state.port, 37650);
    assert!(!state.running);
    assert_eq!(
        state.enabled_tools,
        vec!["m3u8_parse", "m3u8_download", "m3u8_convert", "m3u8_probe", "m3u8_extract_segments"]
    );
    assert_eq!(state.sessions.len(), 0);
}

#[test]
fn closing_a_session_removes_it() {
    let mut state = McpServerState::new(8080);
    handle_initialize(&mut state, "a", 1, None);
    handle_initialize(&mut state, "b", 1, None);
    assert!(close_session(&mut state, "a"));
    assert!(!close_session(&mut state, "a"));
    assert!(state.sessions.get("a").is_none());
    assert!(state.sessions.get("b").is_some());
    assert_eq!(state.sessions.len(), 1);
}

#[test]
fn noting_an_event_sets_the_last_event_of_the_session() {
    let mut state = McpServerState::new(8080);
    handle_initialize(&mut state, "a", 1, None);
    note_event(&mut state, "a", 3);
    note_event(&mut state, "missing", 9);
    assert_eq!(state.sessions.get("a").unwrap().last_event_id, 3);
    assert_eq!(state.sessions.get("a").unwrap().created_at, 1);
    assert_eq!(state.sessions.len(), 1);
}

#[test]
fn connection_without_a_name_gets_the_default_session() {
    let mut state = McpServerState::new_with_tools(8080, Vec::new());
    let r = handle_initialize(&mut state, "", 7, Some(Json::Number("1".to_string())));
    let result = r.result.expect("a result");
    assert_eq!(text_of(&result, "sessionId"), "default");
    assert!(state.sessions.get("default").is_some());
    assert!(state.sessions.get("").is_none());
    handle_initialized(&mut state, "", 8, None);
    assert!(state.sessions.get("default").unwrap().initialized);
    assert_eq!(state.sessions.len(), 1);
    note_event(&mut state, "", 4);
    assert_eq!(state.sessions.get("default").unwrap().last_event_id, 4);
    assert!(close_session(&mut state, ""));
    assert_eq!(state.sessions.len(), 0);
    assert_eq!(session_key_of(""), "default");
    assert_eq!(session_key_of("abc"), "abc");
}

#[test]
fn initialize_always_introduces_the_server() {
    for (enabled, session) in [(Vec::new(), "x"), (vec!["none".to_string()], "")] {
        let mut state = McpServerState::new_with_tools(1, enabled);
        let r = handle_initialize(&mut state, session, 0, None);
        assert!(r.error.is_none());
        let result = r.result.expect("a result");
        assert!(!text_of(&result, "sessionId").is_empty());
        assert!(!text_of(result.get("serverInfo").unwrap(), "name").is_empty());
        assert!(result.get("serverInfo").unwrap().get("version").unwrap().as_str().is_some());
        assert!(result.get("capabilities").unwrap().is_object());
    }
}
