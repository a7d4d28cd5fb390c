use mcp_core::bridge::{
    content_block, current_url_text, lookup_tool, missing_argument, plan_call,
    render_tool_result, segment_duration, set_url_text, structured_block, tool_action, CallPlan,
    ContentBlock, ToolAction, ToolOutput,
};
use mcp_core::dispatcher::{
    complete_cache_stats, contents_reply, dispatch, handle_resources_read, handle_tools_call,
    CacheReport, Dispatch, Outcome,
};
use mcp_core::json::Json;
use mcp_core::registry::catalogue;
use mcp_core::rpc::JsonRpcResponse;
use mcp_core::server::McpServerState;

fn text(s: &str) -> Json {
    Json::Text(s.to_string())
}

fn object(members: Vec<(&str, Json)>) -> Json {
    Json::Object(members.into_iter().map(|(k, v)| (k.to_string(), v)).collect())
}

fn id(n: &str) -> Option<Json> {
    Some(Json::Number(n.to_string()))
}

fn refusal(outcome: Outcome) -> (i32, String) {
    match outcome {
        Outcome::Reply(r) => {
            assert!(r.result.is_none());
            let e = r.error.expect("an error");
            (e.code, e.message)
        }
        other => panic!("expected a refusal, got {:?}", other),
    }
}

fn content_of(r: &JsonRpcResponse) -> (Json, bool) {
    assert!(r.error.is_none());
    let result = r.result.as_ref().expect("a result");
    let blocks = match result.get("content") {
        Some(Json::Array(items)) => items,
        other => panic!("expected content, got {:?}", other),
    };
    assert_eq!(blocks.len(), 1);
    let failed = match result.get("isError") {
        Some(Json::Bool(b)) => *b,
        other => panic!("expected isError, got {:?}", other),
    };
    (blocks[0].clone(), failed)
}

fn all_tools() -> McpServerState {
    McpServerState::new_with_tools(8080, Vec::new())
}

fn call(request_id: &str, params: Option<&Json>) -> Outcome {
    handle_tools_call(&all_tools(), "default", id(request_id), params)
}

fn call_of(name: &str, arguments: Vec<(&str, Json)>) -> Outcome {
    let params = object(vec![("name", text(name)), ("arguments", object(arguments))]);
    call("8", Some(&params))
}

#[test]
fn call_without_params_is_invalid() {
    let (code, message) = refusal(call("1", None));
    assert_eq!(code, -32602);
    assert_eq!(message, "Invalid params");
}

#[test]
fn call_without_name_is_invalid() {
    let params = object(vec![("arguments", object(vec![("url", text("http://x"))]))]);
    let (code, message) = refusal(call("1", Some(&params)));
    assert_eq!(code, -32602);
    assert_eq!(message, "Missing required parameter: name");
}

#[test]
fn call_with_name_that_is_no_string_is_invalid() {
    let params = object(vec![("name", Json::Number("3".to_string()))]);
    let (code, _) = refusal(call("1", Some(&params)));
    assert_eq!(code, -32602);
}

#[test]
fn call_of_unknown_tool_is_method_not_found() {
    let params = object(vec![("name", text("rm_rf"))]);
    let outcome = call("4", Some(&params));
    match &outcome {
        Outcome::Reply(r) => assert_eq!(r.id, id("4")),
        other => panic!("expected a reply, got {:?}", other),
    }
    let (code, message) = refusal(outcome);
    assert_eq!(code, -32601);
    assert_eq!(message, "Unknown tool: rm_rf");
}

#[test]
fn call_without_required_argument_is_invalid() {
    let outcome = call_of("m3u8_download", vec![("url", text("https://example.com/a.m3u8"))]);
    let (code, message) = refusal(outcome);
    assert_eq!(code, -32602);
    assert_eq!(message, "Missing required parameter: output_path");
}

#[test]
fn call_without_arguments_names_the_first_required_one() {
    let params = object(vec![("name", text("m3u8_download"))]);
    let (code, message) = refusal(call("1", Some(&params)));
    assert_eq!(code, -32602);
    assert_eq!(message, "Missing required parameter: url");
}

#[test]
fn required_argument_that_is_no_string_counts_as_missing() {
    let outcome = call_of("m3u8_set_url", vec![("url", Json::Number("5".to_string()))]);
    let (code, message) = refusal(outcome);
    assert_eq!(code, -32602);
    assert_eq!(message, "Missing required parameter: url");
    let outcome = call_of("m3u8_probe", vec![("url", Json::Null)]);
    assert_eq!(refusal(outcome), (-32602, "Missing required parameter: url".to_string()));
}

#[test]
fn parse_without_url_and_content_is_invalid() {
    let params = object(vec![("name", text("m3u8_parse")), ("arguments", object(vec![]))]);
    let outcome = call("8", Some(&params));
    match &outcome {
        Outcome::Reply(r) => {
            assert_eq!(r.id, id("8"));
            assert!(r.result.is_none());
            assert_eq!(r.error.as_ref().unwrap().code, -32602);
        }
        other => panic!("expected a reply, got {:?}", other),
    }
    assert_eq!(
        refusal(outcome),
        (-32602, "Either 'url' or 'content' parameter is required".to_string())
    );
    let params = object(vec![("name", text("m3u8_parse"))]);
    assert_eq!(refusal(call("8", Some(&params))).0, -32602);
    let outcome = call_of("m3u8_parse", vec![("url", Json::Bool(true)), ("content", Json::Null)]);
    assert_eq!(refusal(outcome).0, -32602);
}

#[test]
fn parse_reads_the_url_before_the_content() {
    assert_eq!(
        call_of("m3u8_parse", vec![("content", text("#EXTM3U")), ("url", text("http://x"))]),
        Outcome::CallTool { id: id("8"), action: ToolAction::ParseUrl { url: "http://x".to_string() } }
    );
    assert_eq!(
        call_of("m3u8_parse", vec![("content", text("#EXTM3U"))]),
        Outcome::CallTool {
            id: id("8"),
            action: ToolAction::ParseContent { content: "#EXTM3U".to_string() }
        }
    );
    assert_eq!(
        call_of("m3u8_parse", vec![("url", Json::Null), ("content", text("#EXTM3U"))]),
        Outcome::CallTool {
            id: id("8"),
            action: ToolAction::ParseContent { content: "#EXTM3U".to_string() }
        }
    );
}

#[test]
fn extract_segments_needs_a_url() {
    let outcome = call_of("m3u8_extract_segments", vec![("base_url", text("http://b/"))]);
    assert_eq!(refusal(outcome), (-32602, "Missing 'url' parameter".to_string()));
    assert_eq!(
        call_of("m3u8_extract_segments", vec![("url", text("http://x/a.m3u8"))]),
        Outcome::CallTool {
            id: id("8"),
            action: ToolAction::ExtractSegments { url: "http://x/a.m3u8".to_string(), base_url: None }
        }
    );
    assert_eq!(
        call_of(
            "m3u8_extract_segments",
            vec![("url", text("http://x/a.m3u8")), ("base_url", text("http://b/"))]
        ),
        Outcome::CallTool {
            id: id("8"),
            action: ToolAction::ExtractSegments {
                url: "http://x/a.m3u8".to_string(),
                base_url: Some("http://b/".to_string())
            }
        }
    );
}

#[test]
fn complete_call_goes_to_the_collaborator() {
    let outcome = call_of(
        "m3u8_download",
        vec![("url", text("https://example.com/a.m3u8")), ("output_path", text("/tmp/a.mp4"))],
    );
    assert_eq!(
        outcome,
        Outcome::CallTool {
            id: id("8"),
            action: ToolAction::Download {
                url: "https://example.com/a.m3u8".to_string(),
                output_path: "/tmp/a.mp4".to_string()
            }
        }
    );
    assert_eq!(
        call_of("m3u8_set_url", vec![("url", text("http://x"))]),
        Outcome::CallTool { id: id("8"), action: ToolAction::SetUrl { url: "http://x".to_string() } }
    );
    assert_eq!(
        call_of("m3u8_probe", vec![("url", text("http://x"))]),
        Outcome::CallTool { id: id("8"), action: ToolAction::Probe { url: "http://x".to_string() } }
    );
}

#[test]
fn tool_without_required_arguments_is_called_without_arguments() {
    let params = object(vec![("name", text("m3u8_get_url"))]);
    assert_eq!(
        call("8", Some(&params)),
        Outcome::CallTool { id: id("8"), action: ToolAction::GetUrl }
    );
}

#[test]
fn conversion_takes_ten_seconds_where_it_names_none() {
    let paths = vec![("input_path", text("in.mp4")), ("output_dir", text("out"))];
    let convert = |seconds: u32| Outcome::CallTool {
        id: id("8"),
        action: ToolAction::Convert {
            input_path: "in.mp4".to_string(),
            output_dir: "out".to_string(),
            segment_duration: seconds,
        },
    };
    assert_eq!(call_of("m3u8_convert", paths.clone()), convert(10));
    let mut named = paths.clone();
    named.push(("segment_duration", Json::Number("6".to_string())));
    assert_eq!(call_of("m3u8_convert", named), convert(6));
    let mut largest = paths.clone();
    largest.push(("segment_duration", Json::Number("4294967295".to_string())));
    assert_eq!(call_of("m3u8_convert", largest), convert(u32::MAX));
    for wrong in [
        Json::Number("4294967296".to_string()),
        Json::Number("2.5".to_string()),
        Json::Number("-1".to_string()),
        text("6"),
        Json::Null,
    ] {
        let mut arguments = paths.clone();
        arguments.push(("segment_duration", wrong));
        assert_eq!(
            refusal(call_of("m3u8_convert", arguments)),
            (-32602, "Invalid parameter: segment_duration".to_string())
        );
    }
    assert_eq!(segment_duration(&object(vec![])), Some(10));
    assert_eq!(
        refusal(call_of("m3u8_convert", vec![("input_path", text("in.mp4"))])),
        (-32602, "Missing required parameter: output_dir".to_string())
    );
}

#[test]
fn tool_outside_the_allowlist_cannot_be_called() {
    let mut state = McpServerState::new_with_tools(8080, vec!["m3u8_probe".to_string()]);
    let body = r#"{"jsonrpc":"2.0","id":1,"method":"tools/call","params":{"name":"m3u8_get_url"}}"#;
    let refused = match dispatch(&mut state, "default", 1, body.as_bytes()) {
        Dispatch::Single(outcome) => refusal(outcome),
        other => panic!("expected one outcome, got {:?}", other),
    };
    assert_eq!(refused, (-32601, "Unknown tool: m3u8_get_url".to_string()));
    let body = r#"{"jsonrpc":"2.0","id":1,"method":"tools/call",
        "params":{"name":"m3u8_probe","arguments":{"url":"http://x"}}}"#;
    assert_eq!(
        dispatch(&mut state, "default", 1, body.as_bytes()),
        Dispatch::Single(Outcome::CallTool {
            id: id("1"),
            action: ToolAction::Probe { url: "http://x".to_string() }
        })
    );
}

#[test]
fn session_calls_what_it_was_offered() {
    let mut state = McpServerState::new_with_tools(8080, vec!["m3u8_get_url".to_string()]);
    let initialize = br#"{"jsonrpc":"2.0","id":1,"method":"initialize"}"#;
    dispatch(&mut state, "s1", 1, initialize);
    let params = object(vec![("name", text("m3u8_get_url"))]);
    assert_eq!(
        handle_tools_call(&state, "s1", id("2"), Some(&params)),
        Outcome::CallTool { id: id("2"), action: ToolAction::GetUrl }
    );
    let params = object(vec![("name", text("m3u8_probe")), ("arguments", object(vec![]))]);
    assert_eq!(
        refusal(handle_tools_call(&state, "s1", id("3"), Some(&params))),
        (-32601, "Unknown tool: m3u8_probe".to_string())
    );
}

#[test]
fn tools_call_notification_reaches_no_collaborator() {
    let mut state = McpServerState::new(8080);
    let body = r#"{"jsonrpc":"2.0","method":"tools/call","params":{"name":"m3u8_probe"}}"#;
    assert_eq!(
        dispatch(&mut state, "default", 1, body.as_bytes()),
        Dispatch::Single(Outcome::Accepted)
    );
}

#[test]
fn plan_is_made_against_the_tools_given() {
    let tools = catalogue();
    let params = object(vec![
        ("name", text("m3u8_probe")),
        ("arguments", object(vec![("url", text("u"))])),
    ]);
    assert_eq!(
        plan_call(&tools, Some(&params)),
        CallPlan::Invoke { action: ToolAction::Probe { url: "u".to_string() } }
    );
    assert_eq!(
        plan_call(&Vec::new(), Some(&params)),
        CallPlan::Reject { code: -32601, message: "Unknown tool: m3u8_probe".to_string() }
    );
    assert_eq!(lookup_tool(&tools, "m3u8_probe").unwrap().name, "m3u8_probe");
    assert!(lookup_tool(&tools, "m3u8").is_none());
}

#[test]
fn tool_that_is_not_known_has_no_action() {
    assert_eq!(
        tool_action("browser_open", &object(vec![])),
        Err(CallPlan::Reject { code: -32601, message: "Unknown tool: browser_open".to_string() })
    );
    assert_eq!(tool_action("m3u8_get_url", &Json::Null), Ok(ToolAction::GetUrl));
}

#[test]
fn texts_of_the_url_tools() {
    assert_eq!(set_url_text("http://x/a.m3u8"), "URL set to: http://x/a.m3u8");
    assert_eq!(set_url_text(""), "URL set to: ");
    assert_eq!(current_url_text(Some("http://x")), "Current URL: http://x");
    assert_eq!(current_url_text(None), "Current URL: No URL set");
}

#[test]
fn missing_argument_goes_by_the_required_list() {
    let schema = object(vec![(
        "required",
        Json::Array(vec![text("a"), Json::Number("1".to_string()), text("b")]),
    )]);
    assert_eq!(missing_argument(&schema, &object(vec![("a", text("x"))])), Some("b".to_string()));
    assert_eq!(missing_argument(&schema, &object(vec![("a", Json::Null)])), Some("a".to_string()));
    assert_eq!(
        missing_argument(&schema, &object(vec![("b", text("x")), ("a", text("y"))])),
        None
    );
    assert_eq!(missing_argument(&schema, &Json::Null), Some("a".to_string()));
    assert_eq!(missing_argument(&object(vec![]), &Json::Null), None);
    assert_eq!(missing_argument(&object(vec![("required", text("a"))]), &Json::Null), None);
}

#[test]
fn structured_result_is_shown_as_indented_json() {
    let doc = object(vec![
        ("type", text("media")),
        ("segments", Json::Array(vec![Json::Number("1".to_string()), Json::Bool(true), Json::Null])),
    ]);
    let r = render_tool_result(id("2"), Ok(ToolOutput::Structured(doc)));
    assert_eq!(r.id, id("2"));
    let (block, failed) = content_of(&r);
    assert!(!failed);
    assert_eq!(
        block,
        object(vec![
            ("type", text("text")),
            (
                "text",
                text("{\n  \"segments\": [\n    1,\n    true,\n    null\n  ],\n  \"type\": \"media\"\n}")
            ),
        ])
    );
}

#[test]
fn structured_result_with_a_broken_number_is_told_as_text() {
    let doc = Json::Array(vec![Json::Number("twelve".to_string())]);
    let block = content_block(Ok(ToolOutput::Structured(doc)));
    assert_eq!(block, ContentBlock::Text { text: "Failed to serialize".to_string() });
}

#[test]
fn text_result_is_shown_as_it_is() {
    let r = render_tool_result(None, Ok(ToolOutput::Text("URL set to: http://x".to_string())));
    let (block, failed) = content_of(&r);
    assert!(!failed);
    assert_eq!(block, object(vec![("type", text("text")), ("text", text("URL set to: http://x"))]));
}

#[test]
fn capture_is_shown_as_an_image_block() {
    let out = ToolOutput::Image { data: "aGVsbG8=".to_string(), mime_type: "image/jpeg".to_string() };
    let r = render_tool_result(id("3"), Ok(out));
    let (block, failed) = content_of(&r);
    assert!(!failed);
    assert_eq!(
        block,
        object(vec![
            ("type", text("image")),
            ("data", text("aGVsbG8=")),
            ("mimeType", text("image/jpeg")),
        ])
    );
    assert_eq!(
        ContentBlock::Image { data: "x".to_string(), mime_type: "image/png".to_string() }.to_json(),
        object(vec![("type", text("image")), ("data", text("x")), ("mimeType", text("image/png"))])
    );
}

#[test]
fn failure_of_a_tool_is_a_result_with_its_message() {
    let r = render_tool_result(id("3"), Err("FFmpeg is not installed or not in PATH".to_string()));
    assert!(!r.is_error());
    let (block, failed) = content_of(&r);
    assert!(failed);
    assert_eq!(
        block,
        object(vec![("type", text("text")), ("text", text("FFmpeg is not installed or not in PATH"))])
    );
}

#[test]
fn read_of_the_configuration_is_answered_at_once() {
    let params = object(vec![("uri", text("m3u8://config"))]);
    let r = match handle_resources_read(id("1"), Some(&params)) {
        Outcome::Reply(r) => r,
        other => panic!("expected a reply, got {:?}", other),
    };
    assert_eq!(r.id, id("1"));
    assert_eq!(
        r.result,
        Some(object(vec![(
            "contents",
            Json::Array(vec![object(vec![
                ("uri", text("m3u8://config")),
                ("mimeType", text("application/json")),
                (
                    "text",
                    text("{\"cache_enabled\":true,\"ffmpeg_path\":\"ffmpeg\",\"output_dir\":\"~/Downloads/m3u8-mcp\"}")
                ),
            ])])
        )]))
    );
}

#[test]
fn read_of_the_cache_statistics_asks_the_store() {
    let params = object(vec![("uri", text("m3u8://cache/stats"))]);
    assert_eq!(
        handle_resources_read(id("1"), Some(&params)),
        Outcome::ReadCacheStats { id: id("1") }
    );
}

#[test]
fn read_without_uri_is_invalid() {
    let (code, message) = refusal(handle_resources_read(id("1"), Some(&object(vec![]))));
    assert_eq!((code, message.as_str()), (-32602, "Missing required parameter: uri"));
    let (code, message) = refusal(handle_resources_read(id("1"), None));
    assert_eq!((code, message.as_str()), (-32602, "Invalid params"));
}

#[test]
fn read_of_unknown_uri_is_invalid() {
    let params = object(vec![("uri", text("m3u8://nothing"))]);
    let (code, message) = refusal(handle_resources_read(id("1"), Some(&params)));
    assert_eq!((code, message.as_str()), (-32602, "Unknown resource URI: m3u8://nothing"));
}

#[test]
fn cache_statistics_are_shown_as_compact_json() {
    let stats = object(vec![
        ("cached_playlists", Json::Number("3".to_string())),
        ("latest_cache", Json::Null),
    ]);
    let r = complete_cache_stats(id("5"), CacheReport::Stats(stats));
    let result = r.result.expect("a result");
    let contents = match result.get("contents") {
        Some(Json::Array(items)) => items.clone(),
        other => panic!("expected contents, got {:?}", other),
    };
    assert_eq!(
        contents,
        vec![object(vec![
            ("uri", text("m3u8://cache/stats")),
            ("mimeType", text("application/json")),
            ("text", text("{\"cached_playlists\":3,\"latest_cache\":null}")),
        ])]
    );
}

#[test]
fn missing_cache_store_is_told_in_the_content() {
    let r = complete_cache_stats(None, CacheReport::Unavailable);
    let result = r.result.expect("a result");
    let contents = match result.get("contents") {
        Some(Json::Array(items)) => items.clone(),
        other => panic!("expected contents, got {:?}", other),
    };
    assert_eq!(
        contents[0].get("text"),
        Some(&text("{\"error\":\"Database not initialized\"}"))
    );
}

#[test]
fn failing_cache_store_is_an_internal_error() {
    let r = complete_cache_stats(id("6"), CacheReport::Failed("disk is gone".to_string()));
    assert_eq!(r.id, id("6"));
    assert_eq!(r.result, None);
    let e = r.error.expect("an error");
    assert_eq!(e.code, -32603);
    assert_eq!(e.message, "Failed to get cache stats: disk is gone");
}

#[test]
fn statistics_that_cannot_be_written_are_an_internal_error() {
    let stats = object(vec![("count", Json::Number("-".to_string()))]);
    let r = complete_cache_stats(id("6"), CacheReport::Stats(stats));
    let e = r.error.expect("an error");
    assert_eq!(e.code, -32603);
    assert_eq!(e.message, "Failed to serialize resource");
}

#[test]
fn text_of_a_resource_is_shown_or_its_lack_reported() {
    let r = contents_reply(id("1"), "m3u8://config", Some("{}".to_string()));
    assert_eq!(
        r.result,
        Some(object(vec![(
            "contents",
            Json::Array(vec![object(vec![
                ("uri", text("m3u8://config")),
                ("mimeType", text("application/json")),
                ("text", text("{}")),
            ])])
        )]))
    );
    let r = contents_reply(id("1"), "m3u8://config", None);
    assert_eq!(r.error.map(|e| e.code), Some(-32603));
}

#[test]
fn structured_block_shows_the_text_or_says_that_there_is_none() {
    assert_eq!(
        structured_block(Some("[]".to_string())),
        ContentBlock::Text { text: "[]".to_string() }
    );
    assert_eq!(
        structured_block(None),
        ContentBlock::Text { text: "Failed to serialize".to_string() }
    );
}
