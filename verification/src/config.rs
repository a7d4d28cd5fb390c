use vstd::prelude::*;

verus! {

/// How the browser collaborator is driven.
#[derive(Debug, Clone, PartialEq, Eq)]
pub struct BrowserConfig {
    pub headless: bool,
    pub timeout_seconds: u64,
    pub retry_attempts: u32,
    pub viewport_width: u32,
    pub viewport_height: u32,
    pub user_agent: Option<String>,
    pub proxy: Option<String>,
    pub max_tabs: usize,
    pub console_message_limit: usize,
}

impl Default for BrowserConfig {
    fn default() -> (c: BrowserConfig)
        ensures
            !c.headless,
            c.timeout_seconds == 30,
            c.retry_attempts == 3,
            c.viewport_width == 1280,
            c.viewport_height == 1024,
            c.user_agent is None,
            c.proxy is None,
            c.max_tabs == 10,
            c.console_message_limit == 100,
    {
        BrowserConfig {
            headless: false,
            timeout_seconds: 30,
            retry_attempts: 3,
            viewport_width: 1280,
            viewport_height: 1024,
            user_agent: None,
            proxy: None,
            max_tabs: 10,
            console_message_limit: 100,
        }
    }
}

/// Where the protocol server listens and how many sessions it keeps.
#[derive(Debug, Clone, PartialEq, Eq)]
pub struct McpConfig {
    pub port: u16,
    pub host: String,
    pub max_sessions: usize,
    pub session_timeout_minutes: u64,
    pub cors_enabled: bool,
}

impl Default for McpConfig {
    fn default() -> (c: McpConfig)
        ensures
            c.port == 37650,
            c.host@ == "127.0.0.1"@,
            c.max_sessions == 10,
            c.session_timeout_minutes == 60,
            c.cors_enabled,
    {
        McpConfig {
            port: 37650,
            host: String::from_str("127.0.0.1"),
            max_sessions: 10,
            session_timeout_minutes: 60,
            cors_enabled: true,
        }
    }
}

/// The configuration of the whole application.
#[derive(Debug, Clone, PartialEq, Eq)]
pub struct AppConfig {
    pub browser: BrowserConfig,
    pub mcp: McpConfig,
}

impl Default for AppConfig {
    fn default() -> (c: AppConfig)
        ensures
            !c.browser.headless,
            c.browser.timeout_seconds == 30,
            c.browser.retry_attempts == 3,
            c.browser.viewport_width == 1280,
            c.browser.viewport_height == 1024,
            c.browser.user_agent is None,
            c.browser.proxy is None,
            c.browser.max_tabs == 10,
            c.browser.console_message_limit == 100,
            c.mcp.port == 37650,
            c.mcp.host@ == "127.0.0.1"@,
            c.mcp.max_sessions == 10,
            c.mcp.session_timeout_minutes == 60,
            c.mcp.cors_enabled,
    {
        AppConfig { browser: BrowserConfig::default(), mcp: McpConfig::default() }
    }
}

} // verus!
