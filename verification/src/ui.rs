//! Plain data that passes between the browser's logic and whatever draws its
//! interface.

use vstd::prelude::*;

verus! {

/// The handle through which the interface is started.
#[derive(Debug)]
pub struct GenesisBrowserUI {
    genesis_node_url: String,
}

impl GenesisBrowserUI {
    /// The address of the name service that the interface was made for.
    pub closed spec fn node_url(&self) -> Seq<char> {
        self.genesis_node_url@
    }

    /// An interface for the name service at `genesis_node_url`. This always
    /// succeeds.
    pub fn new(genesis_node_url: String) -> (r: Result<Self, String>)
        ensures
            r matches Ok(ui) && ui.node_url() == genesis_node_url@,
    {
        Ok(GenesisBrowserUI { genesis_node_url })
    }

    /// The address of the name service that the interface was made for.
    pub fn genesis_node_url(&self) -> (url: &String)
        ensures
            url@ == self.node_url(),
    {
        &self.genesis_node_url
    }
}

/// What the user did in the navigation bar during one frame.
#[derive(Debug, PartialEq, Eq)]
pub struct NavigationBarResponse {
    pub go_back: bool,
    pub go_forward: bool,
    pub reload: bool,
    pub stop: bool,
    pub go_home: bool,
    pub navigate: bool,
    pub new_url: Option<String>,
}

impl Default for NavigationBarResponse {
    fn default() -> (r: Self)
        ensures
            !r.go_back,
            !r.go_forward,
            !r.reload,
            !r.stop,
            !r.go_home,
            !r.navigate,
            r.new_url is None,
    {
        NavigationBarResponse {
            go_back: false,
            go_forward: false,
            reload: false,
            stop: false,
            go_home: false,
            navigate: false,
            new_url: None,
        }
    }
}

/// What the user did in the tab bar during one frame.
#[derive(Debug, PartialEq, Eq)]
pub struct TabBarResponse {
    pub switch_to: Option<usize>,
    pub close_tab: Option<usize>,
    pub new_tab: bool,
}

impl Default for TabBarResponse {
    fn default() -> (r: Self)
        ensures
            r.switch_to is None,
            r.close_tab is None,
            !r.new_tab,
    {
        TabBarResponse { switch_to: None, close_tab: None, new_tab: false }
    }
}

/// What the user did in the bookmarks panel during one frame.
#[derive(Debug, PartialEq, Eq)]
pub struct BookmarksPanelResponse {
    pub navigate_to: Option<String>,
    pub delete_bookmark: Option<String>,
    pub add_current_page: bool,
}

impl Default for BookmarksPanelResponse {
    fn default() -> (r: Self)
        ensures
            r.navigate_to is None,
            r.delete_bookmark is None,
            !r.add_current_page,
    {
        BookmarksPanelResponse { navigate_to: None, delete_bookmark: None, add_current_page: false }
    }
}

/// What the user did in the downloads panel during one frame.
#[derive(Debug, PartialEq, Eq)]
pub struct DownloadsPanelResponse {
    pub open_file: Option<String>,
    pub pause_download: Option<String>,
    pub resume_download: Option<String>,
    pub retry_download: Option<String>,
    pub cancel_download: Option<String>,
    pub clear_all: bool,
}

impl Default for DownloadsPanelResponse {
    fn default() -> (r: Self)
        ensures
            r.open_file is None,
            r.pause_download is None,
            r.resume_download is None,
            r.retry_download is None,
            r.cancel_download is None,
            !r.clear_all,
    {
        DownloadsPanelResponse {
            open_file: None,
            pause_download: None,
            resume_download: None,
            retry_download: None,
            cancel_download: None,
            clear_all: false,
        }
    }
}

/// What the user did in the settings panel during one frame.
#[derive(Clone, Copy, Debug, PartialEq, Eq, Structural)]
pub struct SettingsPanelResponse {
    pub clear_browsing_data: bool,
    pub test_genesis_connection: bool,
}

impl Default for SettingsPanelResponse {
    fn default() -> (r: Self)
        ensures
            !r.clear_browsing_data,
            !r.test_genesis_connection,
    {
        SettingsPanelResponse { clear_browsing_data: false, test_genesis_connection: false }
    }
}

/// What the user did in the developer tools during one frame.
#[derive(Clone, Copy, Debug, PartialEq, Eq, Structural)]
pub struct DevToolsPanelResponse {
    pub active_tab: usize,
}

impl Default for DevToolsPanelResponse {
    fn default() -> (r: Self)
        ensures
            r.active_tab == 0,
    {
        DevToolsPanelResponse { active_tab: 0 }
    }
}

/// What the navigation bar shows and edits.
pub struct NavigationBar<'a> {
    pub can_go_back: bool,
    pub can_go_forward: bool,
    pub url: &'a mut String,
    pub is_loading: bool,
    pub is_genesis_domain: bool,
}

/// What the tab bar shows.
pub struct TabBar<'a> {
    /// Each tab with its identifier, its title and whether it shows a name
    /// of the name service.
    pub tabs: &'a [(String, String, bool)],
    pub active_index: usize,
}

/// What the bookmarks panel shows and edits.
pub struct BookmarksPanel<'a> {
    /// Each bookmark with its identifier, its title and its address.
    pub bookmarks: &'a [(String, String, String)],
    pub search: &'a mut String,
}

/// The settings that the settings panel edits.
pub struct SettingsPanel<'a> {
    pub javascript_enabled: &'a mut bool,
    pub images_enabled: &'a mut bool,
    pub webgl_enabled: &'a mut bool,
    pub private_mode: &'a mut bool,
    pub adblock_enabled: &'a mut bool,
    pub genesis_node_url: &'a mut String,
}

/// What the developer tools show.
#[derive(Debug, PartialEq, Eq)]
pub struct DevToolsPanel {
    /// The lines written to the console.
    pub console_output: Vec<String>,
    /// The requests made, each with its method, its URL and its size in bytes.
    pub network_requests: Vec<(String, String, u64)>,
}

/// A password kept for a site.
#[derive(Debug, PartialEq, Eq)]
pub struct SavedPassword {
    pub domain: String,
    pub username: String,
    pub encrypted_password: Vec<u8>,
}

} // verus!
