//! Settings of the browser, of its engine and of its web views.

use vstd::prelude::*;

verus! {

/// The width of the browser window in pixels, unless set otherwise.
pub const DEFAULT_WINDOW_WIDTH: u32 = 1200;

/// The height of the browser window in pixels, unless set otherwise.
pub const DEFAULT_WINDOW_HEIGHT: u32 = 800;

/// The user agent that a browser and its web views announce by default.
pub open spec fn default_user_agent() -> Seq<char> {
    "Genesis Browser/1.0 (Servo; Decentralized Web)"@
}

/// Settings of the rendering engine.
#[derive(Debug, PartialEq, Eq)]
pub struct ServoConfig {
    pub title: String,
    pub width: u32,
    pub height: u32,
    pub user_agent: String,
    pub window_width: u32,
    pub window_height: u32,
    pub enable_webgl: bool,
    pub enable_webrender: bool,
    pub enable_javascript: bool,
    pub genesis_node_url: String,
    pub enable_dev_tools: bool,
    pub multiprocess: bool,
}

impl Clone for ServoConfig {
    fn clone(&self) -> (c: Self)
        ensures
            c.title@ == self.title@,
            c.width == self.width,
            c.height == self.height,
            c.user_agent@ == self.user_agent@,
            c.window_width == self.window_width,
            c.window_height == self.window_height,
            c.enable_webgl == self.enable_webgl,
            c.enable_webrender == self.enable_webrender,
            c.enable_javascript == self.enable_javascript,
            c.genesis_node_url@ == self.genesis_node_url@,
            c.enable_dev_tools == self.enable_dev_tools,
            c.multiprocess == self.multiprocess,
    {
        ServoConfig {
            title: self.title.clone(),
            width: self.width,
            height: self.height,
            user_agent: self.user_agent.clone(),
            window_width: self.window_width,
            window_height: self.window_height,
            enable_webgl: self.enable_webgl,
            enable_webrender: self.enable_webrender,
            enable_javascript: self.enable_javascript,
            genesis_node_url: self.genesis_node_url.clone(),
            enable_dev_tools: self.enable_dev_tools,
            multiprocess: self.multiprocess,
        }
    }
}

impl Default for ServoConfig {
    fn default() -> (c: Self)
        ensures
            c.title@ == "Genesis Browser"@,
            c.width == DEFAULT_WINDOW_WIDTH,
            c.height == DEFAULT_WINDOW_HEIGHT,
            c.user_agent@ == "Genesis Browser 1.0"@,
            c.window_width == DEFAULT_WINDOW_WIDTH,
            c.window_height == DEFAULT_WINDOW_HEIGHT,
            c.enable_webgl,
            c.enable_webrender,
            c.enable_javascript,
            c.genesis_node_url@ == "http://localhost:8080"@,
            !c.enable_dev_tools,
            !c.multiprocess,
    {
        ServoConfig {
            title: String::from_str("Genesis Browser"),
            width: DEFAULT_WINDOW_WIDTH,
            height: DEFAULT_WINDOW_HEIGHT,
            user_agent: String::from_str("Genesis Browser 1.0"),
            window_width: DEFAULT_WINDOW_WIDTH,
            window_height: DEFAULT_WINDOW_HEIGHT,
            enable_webgl: true,
            enable_webrender: true,
            enable_javascript: true,
            genesis_node_url: String::from_str("http://localhost:8080"),
            enable_dev_tools: false,
            multiprocess: false,
        }
    }
}

/// Settings of one web view.
#[derive(Debug, PartialEq, Eq)]
pub struct WebViewConfig {
    pub javascript_enabled: bool,
    pub images_enabled: bool,
    pub webgl_enabled: bool,
    pub user_agent: String,
    pub developer_tools: bool,
    pub private_mode: bool,
}

impl Clone for WebViewConfig {
    fn clone(&self) -> (c: Self)
        ensures
            c.javascript_enabled == self.javascript_enabled,
            c.images_enabled == self.images_enabled,
            c.webgl_enabled == self.webgl_enabled,
            c.user_agent@ == self.user_agent@,
            c.developer_tools == self.developer_tools,
            c.private_mode == self.private_mode,
    {
        WebViewConfig {
            javascript_enabled: self.javascript_enabled,
            images_enabled: self.images_enabled,
            webgl_enabled: self.webgl_enabled,
            user_agent: self.user_agent.clone(),
            developer_tools: self.developer_tools,
            private_mode: self.private_mode,
        }
    }
}

impl Default for WebViewConfig {
    fn default() -> (c: Self)
        ensures
            c.javascript_enabled,
            c.images_enabled,
            c.webgl_enabled,
            c.user_agent@ == default_user_agent(),
            !c.developer_tools,
            !c.private_mode,
    {
        WebViewConfig {
            javascript_enabled: true,
            images_enabled: true,
            webgl_enabled: true,
            user_agent: String::from_str("Genesis Browser/1.0 (Servo; Decentralized Web)"),
            developer_tools: false,
            private_mode: false,
        }
    }
}

/// Settings of the browser as a whole.
#[derive(Debug, PartialEq, Eq)]
pub struct BrowserConfig {
    pub enable_genesis_dns: bool,
    pub enable_traditional_fallback: bool,
    pub genesis_node_url: String,
    pub user_agent: String,
    pub enable_javascript: bool,
    pub enable_webgl: bool,
}

impl Clone for BrowserConfig {
    fn clone(&self) -> (c: Self)
        ensures
            c.enable_genesis_dns == self.enable_genesis_dns,
            c.enable_traditional_fallback == self.enable_traditional_fallback,
            c.genesis_node_url@ == self.genesis_node_url@,
            c.user_agent@ == self.user_agent@,
            c.enable_javascript == self.enable_javascript,
            c.enable_webgl == self.enable_webgl,
    {
        BrowserConfig {
            enable_genesis_dns: self.enable_genesis_dns,
            enable_traditional_fallback: self.enable_traditional_fallback,
            genesis_node_url: self.genesis_node_url.clone(),
            user_agent: self.user_agent.clone(),
            enable_javascript: self.enable_javascript,
            enable_webgl: self.enable_webgl,
        }
    }
}

impl Default for BrowserConfig {
    fn default() -> (c: Self)
        ensures
            c.enable_genesis_dns,
            c.enable_traditional_fallback,
            c.genesis_node_url@ == "http://localhost:3000"@,
            c.user_agent@ == default_user_agent(),
            c.enable_javascript,
            c.enable_webgl,
    {
        BrowserConfig {
            enable_genesis_dns: true,
            enable_traditional_fallback: true,
            genesis_node_url: String::from_str("http://localhost:3000"),
            user_agent: String::from_str("Genesis Browser/1.0 (Servo; Decentralized Web)"),
            enable_javascript: true,
            enable_webgl: true,
        }
    }
}

impl BrowserConfig {
    /// The engine settings that follow from these browser settings: the
    /// switches for WebGL and JavaScript, the user agent and the node address
    /// are taken over; the window has its default size and title; WebRender
    /// is on, developer tools and multiprocess mode are off.
    pub fn servo_config(&self) -> (c: ServoConfig)
        ensures
            c.title@ == "Genesis Browser"@,
            c.width == DEFAULT_WINDOW_WIDTH,
            c.height == DEFAULT_WINDOW_HEIGHT,
            c.user_agent@ == self.user_agent@,
            c.window_width == DEFAULT_WINDOW_WIDTH,
            c.window_height == DEFAULT_WINDOW_HEIGHT,
            c.enable_webgl == self.enable_webgl,
            c.enable_webrender,
            c.enable_javascript == self.enable_javascript,
            c.genesis_node_url@ == self.genesis_node_url@,
            !c.enable_dev_tools,
            !c.multiprocess,
    {
        let base = ServoConfig::default();
        ServoConfig {
            title: base.title,
            width: base.width,
            height: base.height,
            user_agent: self.user_agent.clone(),
            window_width: DEFAULT_WINDOW_WIDTH,
            window_height: DEFAULT_WINDOW_HEIGHT,
            enable_webgl: self.enable_webgl,
            enable_webrender: true,
            enable_javascript: self.enable_javascript,
            genesis_node_url: self.genesis_node_url.clone(),
            enable_dev_tools: false,
            multiprocess: false,
        }
    }

    /// The settings of the web views of a browser with these settings: the
    /// switches for JavaScript and WebGL and the user agent are taken over;
    /// images are on, developer tools and private mode are off.
    pub fn webview_config(&self) -> (c: WebViewConfig)
        ensures
            c.javascript_enabled == self.enable_javascript,
            c.images_enabled,
            c.webgl_enabled == self.enable_webgl,
            c.user_agent@ == self.user_agent@,
            !c.developer_tools,
            !c.private_mode,
    {
        WebViewConfig {
            javascript_enabled: self.enable_javascript,
            images_enabled: true,
            webgl_enabled: self.enable_webgl,
            user_agent: self.user_agent.clone(),
            developer_tools: false,
            private_mode: false,
        }
    }
}

/// What a browser reports of itself.
#[derive(Debug, PartialEq, Eq)]
pub struct BrowserStatus {
    pub is_running: bool,
    pub current_url: Option<String>,
    pub is_loading: bool,
    pub window_size: (u32, u32),
}

impl BrowserStatus {
    /// The status of a browser whose engine is running or not and whose
    /// active view shows `current_url`, if there is an active view with a
    /// page. The status never reports loading, and reports the default
    /// window size.
    pub fn report(is_running: bool, current_url: Option<String>) -> (s: Self)
        ensures
            s.is_running == is_running,
            s.current_url == current_url,
            !s.is_loading,
            s.window_size == (DEFAULT_WINDOW_WIDTH, DEFAULT_WINDOW_HEIGHT),
    {
        BrowserStatus {
            is_running,
            current_url,
            is_loading: false,
            window_size: (DEFAULT_WINDOW_WIDTH, DEFAULT_WINDOW_HEIGHT),
        }
    }
}

} // verus!
