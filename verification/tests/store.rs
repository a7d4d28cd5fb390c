use mcp_core::collaborators::{ConsoleMessage, FFmpegConfig, FFmpegError, M3u8Error};
use mcp_core::config::{AppConfig, BrowserConfig, McpConfig};
use mcp_core::json::{ArrayBuilder, Json, ObjectBuilder};
use mcp_core::registry::{get_available_resources, get_available_tools};
use mcp_core::session::{Session, SessionStore};
use mcp_core::text::joined;

fn session(id: &str, created_at: u64) -> Session {
    Session {
        id: id.to_string(),
        initialized: false,
        created_at,
        last_activity: created_at,
        last_event_id: 0,
        tools: Vec::new(),
        resources: Vec::new(),
    }
}

#[test]
fn get_or_create_is_idempotent() {
    let mut store = SessionStore::new();
    let tools = get_available_tools(&["m3u8_probe".to_string()]);
    let first = store.get_or_create("default", 10, tools, get_available_resources());
    assert_eq!(first.created_at, 10);
    assert_eq!(first.tools.len(), 1);
    assert_eq!(first.resources.len(), 2);
    assert!(!first.initialized);
    let second = store.get_or_create("default", 99, Vec::new(), Vec::new());
    assert_eq!(second, first);
    assert_eq!(store.len(), 1);
    assert_eq!(store.get("default"), Some(&first));
}

#[test]
fn put_replaces_the_session_of_the_same_id() {
    let mut store = SessionStore::new();
    store.put(session("a", 1));
    store.put(session("b", 2));
    let mut changed = session("a", 1);
    changed.initialized = true;
    changed.last_activity = 7;
    store.put(changed);
    assert_eq!(store.len(), 2);
    let a = store.get("a").unwrap();
    assert!(a.initialized);
    assert_eq!(a.last_activity, 7);
    assert_eq!(store.get("b").unwrap().created_at, 2);
    assert!(store.contains("a"));
    assert!(!store.contains("c"));
}

#[test]
fn remove_takes_only_the_named_session() {
    let mut store = SessionStore::new();
    store.put(session("a", 1));
    store.put(session("b", 2));
    store.put(session("c", 3));
    assert!(store.remove("b"));
    assert!(!store.remove("b"));
    assert_eq!(store.len(), 2);
    assert_eq!(store.get("a").unwrap().created_at, 1);
    assert_eq!(store.get("c").unwrap().created_at, 3);
    assert!(store.get("b").is_none());
}

#[test]
fn empty_store_finds_nothing() {
    let store = SessionStore::new();
    assert_eq!(store.len(), 0);
    assert!(store.get("default").is_none());
}

#[test]
fn object_lookup_finds_the_first_member_of_that_key() {
    let doc = ObjectBuilder::new()
        .with("a", Json::Number("1".to_string()))
        .with("b", Json::text("x"))
        .with("a", Json::Null)
        .build();
    assert_eq!(doc.get("a"), Some(&Json::Number("1".to_string())));
    assert_eq!(doc.get("b").and_then(|v| v.as_str()), Some("x"));
    assert_eq!(doc.get("c"), None);
    assert_eq!(Json::Null.get("a"), None);
    assert_eq!(Json::Number("1".to_string()).as_str(), None);
    assert!(doc.is_object());
    assert!(!Json::Array(Vec::new()).is_object());
}

#[test]
fn duplicate_copies_the_whole_document() {
    let doc = ObjectBuilder::new()
        .with(
            "list",
            ArrayBuilder::new()
                .with(Json::Bool(false))
                .with(ObjectBuilder::new().with("deep", Json::text("value")).build())
                .build(),
        )
        .with("n", Json::Number("-2.5".to_string()))
        .build();
    assert_eq!(doc.duplicate(), doc);
    assert_eq!(doc.clone(), doc);
    assert_eq!(
        doc,
        Json::Object(vec![
            (
                "list".to_string(),
                Json::Array(vec![
                    Json::Bool(false),
                    Json::Object(vec![("deep".to_string(), Json::Text("value".to_string()))]),
                ])
            ),
            ("n".to_string(), Json::Number("-2.5".to_string())),
        ])
    );
}

#[test]
fn joined_puts_the_tail_behind_the_prefix() {
    assert_eq!(joined("Unknown tool: ", "x"), "Unknown tool: x");
    assert_eq!(joined("", ""), "");
}

#[test]
fn default_configuration() {
    let c = AppConfig::default();
    assert_eq!(c.browser, BrowserConfig::default());
    assert_eq!(c.mcp, McpConfig::default());
    assert!(!c.browser.headless);
    assert_eq!(c.browser.timeout_seconds, 30);
    assert_eq!(c.browser.retry_attempts, 3);
    assert_eq!((c.browser.viewport_width, c.browser.viewport_height), (1280, 1024));
    assert_eq!(c.browser.user_agent, None);
    assert_eq!(c.browser.proxy, None);
    assert_eq!(c.browser.max_tabs, 10);
    assert_eq!(c.browser.console_message_limit, 100);
    assert_eq!(c.mcp.port, 37650);
    assert_eq!(c.mcp.host, "127.0.0.1");
    assert_eq!(c.mcp.max_sessions, 10);
    assert_eq!(c.mcp.session_timeout_minutes, 60);
    assert!(c.mcp.cors_enabled);
}

#[test]
fn playlist_errors_say_what_went_wrong() {
    assert_eq!(M3u8Error::NetworkError("timeout".to_string()).describe(), "Network error: timeout");
    assert_eq!(
        M3u8Error::ParseError("Not a valid m3u8 file".to_string()).describe(),
        "Parse error: Not a valid m3u8 file"
    );
    assert_eq!(
        M3u8Error::InvalidUrl("URL must start with http:// or https://".to_string()).describe(),
        "Invalid URL: URL must start with http:// or https://"
    );
}

#[test]
fn transcoder_errors_say_what_went_wrong() {
    assert_eq!(FFmpegError::NotInstalled.describe(), "FFmpeg is not installed or not in PATH");
    assert_eq!(
        FFmpegError::CommandFailed("exit 1".to_string()).describe(),
        "FFmpeg command failed: exit 1"
    );
    assert_eq!(
        FFmpegError::InvalidInput("URL must be HTTP or HTTPS".to_string()).describe(),
        "Invalid input: URL must be HTTP or HTTPS"
    );
    assert_eq!(FFmpegError::OutputError("denied".to_string()).describe(), "Output error: denied");
}

#[test]
fn transcoder_is_found_by_its_plain_name_unless_a_path_is_given() {
    let mut c = FFmpegConfig::with_output_dir("/home/u/Downloads/m3u8-mcp".to_string());
    assert_eq!(c.ffmpeg_path, None);
    assert_eq!(c.timeout_seconds, 3600);
    assert_eq!(c.default_output_dir, "/home/u/Downloads/m3u8-mcp");
    assert_eq!(c.get_ffmpeg_command(), "ffmpeg");
    c.ffmpeg_path = Some("/opt/bin/ffmpeg".to_string());
    assert_eq!(c.get_ffmpeg_command(), "/opt/bin/ffmpeg");
}

#[test]
fn console_message_keeps_its_fields() {
    let m = ConsoleMessage { level: "warn".to_string(), text: "careful".to_string(), timestamp: 5 };
    assert_eq!(m.clone(), m);
    assert_eq!(m.timestamp, 5);
}

#[test]
fn update_changes_the_named_session_only() {
    let mut store = SessionStore::new();
    store.put(session("a", 1));
    store.put(session("b", 2));
    let changed = store.update("a", |mut s| {
        s.initialized = true;
        s.last_activity = 50;
        s
    });
    assert!(changed);
    assert!(!store.update("missing", |s| s));
    assert_eq!(store.len(), 2);
    let a = store.get("a").unwrap();
    assert!(a.initialized);
    assert_eq!((a.created_at, a.last_activity), (1, 50));
    assert_eq!(store.get("b"), Some(&session("b", 2)));
}

#[test]
fn update_files_the_session_under_the_id_it_comes_back_with() {
    let mut store = SessionStore::new();
    store.put(session("a", 1));
    store.put(session("b", 2));
    assert!(store.update("a", |mut s| {
        s.id = "b".to_string();
        s
    }));
    assert_eq!(store.len(), 1);
    assert!(store.get("a").is_none());
    assert_eq!(store.get("b").unwrap().created_at, 1);
}
