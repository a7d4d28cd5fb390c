use mcp_core::browser::{BrowserManager, ConsoleLog, TabInfo, TabList, DEFAULT_CONSOLE_LIMIT};
use mcp_core::json::Json;

fn number(n: u64) -> Json {
    Json::Number(n.to_string())
}

fn text(s: &str) -> Json {
    Json::Text(s.to_string())
}

fn message(level: &str, body: &str, timestamp: u64) -> Json {
    Json::Object(vec![
        ("level".to_string(), text(level)),
        ("text".to_string(), text(body)),
        ("timestamp".to_string(), number(timestamp)),
    ])
}

#[test]
fn console_log_keeps_the_newest_messages() {
    let mut log = ConsoleLog::new(3);
    for i in 0..5u64 {
        log.add_console_message("log".to_string(), format!("m{}", i), i);
    }
    assert_eq!(log.len(), 3);
    assert_eq!(
        log.get_console_messages(10),
        vec![message("log", "m4", 4), message("log", "m3", 3), message("log", "m2", 2)]
    );
    assert_eq!(log.get_console_messages(1), vec![message("log", "m4", 4)]);
    assert_eq!(log.get_console_messages(0), Vec::<Json>::new());
    log.clear_console();
    assert_eq!(log.len(), 0);
    assert_eq!(log.get_console_messages(10), Vec::<Json>::new());
    assert_eq!(DEFAULT_CONSOLE_LIMIT, 100);
}

#[test]
fn console_log_without_room_keeps_nothing() {
    let mut log = ConsoleLog::new(0);
    log.add_console_message("error".to_string(), "lost".to_string(), 1);
    assert_eq!(log.len(), 0);
}

#[test]
fn long_console_message_is_shortened() {
    let mut log = ConsoleLog::new(10);
    log.add_console_message("warn".to_string(), "x".repeat(200), 1);
    log.add_console_message("warn".to_string(), "y".repeat(201), 2);
    let shown = log.get_console_messages(2);
    assert_eq!(shown[0], message("warn", &format!("{}...", "y".repeat(197)), 2));
    assert_eq!(shown[1], message("warn", &"x".repeat(200), 1));
}

#[test]
fn new_tab_is_shown() {
    let mut tabs = TabList::new();
    assert_eq!(tabs.current_tab_index(), None);
    assert_eq!(tabs.new_tab("about:blank".to_string(), "New Tab".to_string()), 0);
    assert_eq!(tabs.new_tab("http://a".to_string(), "A".to_string()), 1);
    assert_eq!(tabs.len(), 2);
    assert_eq!(tabs.current_tab_index(), Some(1));
    assert_eq!(
        tabs.get(1),
        Some(&TabInfo { url: "http://a".to_string(), title: "A".to_string(), index: 1 })
    );
    assert_eq!(tabs.get(2), None);
}

#[test]
fn switching_shows_another_tab() {
    let mut tabs = TabList::new();
    assert_eq!(tabs.switch_tab(0), Err("Tab index 0 out of range".to_string()));
    tabs.new_tab("http://a".to_string(), "A".to_string());
    tabs.new_tab("http://b".to_string(), "B".to_string());
    let shown = tabs.switch_tab(0).expect("a tab");
    assert_eq!(shown, TabInfo { url: "http://a".to_string(), title: "A".to_string(), index: 0 });
    assert_eq!(tabs.current_tab_index(), Some(0));
    assert_eq!(tabs.switch_tab(2), Err("Tab index 2 out of range (0-1)".to_string()));
    assert_eq!(tabs.current_tab_index(), Some(0));
}

#[test]
fn closing_a_tab_moves_the_others_up() {
    let mut tabs = TabList::new();
    for name in ["a", "b", "c", "d"] {
        tabs.new_tab(format!("http://{}", name), name.to_uppercase());
    }
    assert_eq!(tabs.close_tab(9), Err("Tab index 9 out of range".to_string()));
    assert_eq!(tabs.close_tab(3), Ok(Some(2)));
    assert_eq!(tabs.close_tab(0), Ok(Some(1)));
    assert_eq!(tabs.len(), 2);
    assert_eq!(
        tabs.get(0),
        Some(&TabInfo { url: "http://b".to_string(), title: "B".to_string(), index: 0 })
    );
    assert_eq!(
        tabs.get(1),
        Some(&TabInfo { url: "http://c".to_string(), title: "C".to_string(), index: 1 })
    );
    assert_eq!(tabs.switch_tab(0).map(|t| t.index), Ok(0));
    assert_eq!(tabs.close_tab(1), Ok(Some(0)));
    assert_eq!(tabs.close_tab(0), Ok(None));
    assert_eq!(tabs.len(), 0);
    assert_eq!(tabs.current_tab_index(), None);
}

#[test]
fn closing_the_shown_tab_shows_the_one_that_takes_its_place() {
    let mut tabs = TabList::new();
    for name in ["a", "b", "c"] {
        tabs.new_tab(format!("http://{}", name), name.to_string());
    }
    assert_eq!(tabs.switch_tab(1).map(|t| t.index), Ok(1));
    assert_eq!(tabs.close_tab(1), Ok(Some(1)));
    assert_eq!(tabs.get(1).map(|t| t.title.as_str()), Some("c"));
}

#[test]
fn tabs_are_listed_with_the_shown_one_marked() {
    let mut tabs = TabList::new();
    assert_eq!(
        tabs.list_tabs(),
        Json::Object(vec![
            ("success".to_string(), Json::Bool(true)),
            ("tabs".to_string(), Json::Array(Vec::new())),
            ("current_index".to_string(), Json::Null),
        ])
    );
    tabs.new_tab("http://a".to_string(), "A".to_string());
    tabs.new_tab("http://b".to_string(), "B".to_string());
    let tab = |index: u64, title: &str, url: &str, current: bool| {
        Json::Object(vec![
            ("index".to_string(), number(index)),
            ("title".to_string(), text(title)),
            ("url".to_string(), text(url)),
            ("current".to_string(), Json::Bool(current)),
        ])
    };
    assert_eq!(
        tabs.list_tabs(),
        Json::Object(vec![
            ("success".to_string(), Json::Bool(true)),
            (
                "tabs".to_string(),
                Json::Array(vec![tab(0, "A", "http://a", false), tab(1, "B", "http://b", true)])
            ),
            ("current_index".to_string(), number(1)),
        ])
    );
}

#[test]
fn session_export_shows_tabs_and_counts() {
    let mut manager = BrowserManager::new();
    manager.tabs.new_tab("http://a".to_string(), "A".to_string());
    manager.console_messages.add_console_message("log".to_string(), "hi".to_string(), 7);
    assert_eq!(
        manager.export_session(true, 1700000000),
        Json::Object(vec![
            ("browser_connected".to_string(), Json::Bool(true)),
            (
                "tabs".to_string(),
                Json::Array(vec![Json::Object(vec![
                    ("url".to_string(), text("http://a")),
                    ("title".to_string(), text("A")),
                    ("index".to_string(), number(0)),
                ])])
            ),
            ("current_tab".to_string(), number(0)),
            ("console_messages_count".to_string(), number(1)),
            ("max_console_messages".to_string(), number(100)),
            ("timestamp".to_string(), number(1700000000)),
        ])
    );
    let empty = BrowserManager::new();
    assert_eq!(empty.export_session(false, 0).get("current_tab"), Some(&Json::Null));
    assert_eq!(empty.console_messages.max_messages(), 100);
}
