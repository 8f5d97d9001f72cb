//! The state behind the browser's interface: its tabs, bookmarks, history and
//! downloads, and which panels are open.
//!
//! Every operation is total: an index that names no tab, or an identifier
//! that names no entry, leaves the state as it was.

use std::collections::VecDeque;
use vstd::prelude::*;
use crate::clock::unix_now;
use crate::ident::fresh_id;
use crate::text::{chars_of, has_infix, occurs_in, same_text};
use crate::ui::SavedPassword;

verus! {

/// The most entries that the history holds.
pub const HISTORY_LIMIT: usize = 1000;

/// How many of the oldest entries leave the history when it has outgrown
/// [`HISTORY_LIMIT`].
pub const HISTORY_TRIM: usize = 100;

/// The most addresses that the navigation trail holds.
pub const TRAIL_LIMIT: usize = 100;

/// The progress of a page that has finished loading, in percent.
pub const LOAD_COMPLETE: u8 = 100;

/// Whether `url` holds one of the labels of the blockchain name service or
/// its own scheme, anywhere in its text.
pub open spec fn mentions_genesis(url: Seq<char>) -> bool {
    ||| occurs_in(".genesis"@, url)
    ||| occurs_in(".free"@, url)
    ||| occurs_in(".web"@, url)
    ||| occurs_in(".defi"@, url)
    ||| occurs_in(".dao"@, url)
    ||| occurs_in("genesis://"@, url)
}

/// One tab of the browser.
#[derive(Debug, PartialEq, Eq)]
pub struct BrowserTab {
    pub id: String,
    pub title: String,
    pub url: String,
    pub favicon: Option<String>,
    pub is_loading: bool,
    pub can_go_back: bool,
    pub can_go_forward: bool,
    pub is_genesis_domain: bool,
    /// How far the page has loaded, in percent.
    pub load_progress: u8,
}

impl Clone for BrowserTab {
    fn clone(&self) -> (t: Self)
        ensures
            t == *self,
    {
        BrowserTab {
            id: self.id.clone(),
            title: self.title.clone(),
            url: self.url.clone(),
            favicon: match &self.favicon {
                Some(f) => Some(f.clone()),
                None => None,
            },
            is_loading: self.is_loading,
            can_go_back: self.can_go_back,
            can_go_forward: self.can_go_forward,
            is_genesis_domain: self.is_genesis_domain,
            load_progress: self.load_progress,
        }
    }
}

impl BrowserTab {
    /// Whether this is a tab as it is first opened on `url`: titled
    /// "New Tab", idle, with nothing loaded and nowhere to go back or forward
    /// to. Its identifier is left open.
    pub open spec fn is_new_for(self, url: Seq<char>) -> bool {
        &&& self.title@ == "New Tab"@
        &&& self.url@ == url
        &&& self.favicon is None
        &&& !self.is_loading
        &&& !self.can_go_back
        &&& !self.can_go_forward
        &&& self.is_genesis_domain == mentions_genesis(url)
        &&& self.load_progress == 0
    }

    /// This tab after an update: a title and an address that are given
    /// replace the old ones, and the address decides anew whether the tab
    /// shows a name of the name service; a loading state that is given is
    /// taken over, and where it says that loading has ended the progress is
    /// complete.
    pub open spec fn updated(
        self,
        title: Option<String>,
        url: Option<String>,
        is_loading: Option<bool>,
    ) -> BrowserTab {
        BrowserTab {
            title: match title {
                Some(t) => t,
                None => self.title,
            },
            url: match url {
                Some(u) => u,
                None => self.url,
            },
            is_genesis_domain: match url {
                Some(u) => mentions_genesis(u@),
                None => self.is_genesis_domain,
            },
            is_loading: match is_loading {
                Some(l) => l,
                None => self.is_loading,
            },
            load_progress: match is_loading {
                Some(false) => LOAD_COMPLETE,
                _ => self.load_progress,
            },
            ..self
        }
    }

    /// A new tab on `url`, with a fresh identifier.
    pub fn new(url: &str) -> (t: Self)
        ensures
            t.is_new_for(url@),
    {
        BrowserTab {
            id: fresh_id(),
            title: String::from_str("New Tab"),
            url: String::from_str(url),
            favicon: None,
            is_loading: false,
            can_go_back: false,
            can_go_forward: false,
            is_genesis_domain: BrowserTab::check_genesis_domain(url),
            load_progress: 0,
        }
    }

    /// Whether `url` mentions the blockchain name service.
    pub fn check_genesis_domain(url: &str) -> (b: bool)
        ensures
            b == mentions_genesis(url@),
    {
        let text = chars_of(url);
        has_infix(&text, ".genesis") || has_infix(&text, ".free") || has_infix(&text, ".web")
            || has_infix(&text, ".defi") || has_infix(&text, ".dao") || has_infix(
            &text,
            "genesis://",
        )
    }
}

/// A page that the user marked.
#[derive(Debug, PartialEq, Eq)]
pub struct Bookmark {
    pub id: String,
    pub title: String,
    pub url: String,
    pub folder: Option<String>,
    /// Seconds since the Unix epoch at which the bookmark was made.
    pub created_at: u64,
}

/// How a download stands.
#[derive(Debug, PartialEq, Eq)]
pub enum DownloadStatus {
    Pending,
    /// Under way, with the part that has arrived in percent.
    InProgress(u8),
    Completed,
    Failed(String),
    Cancelled,
}

/// A file that is being fetched or was fetched.
#[derive(Debug, PartialEq, Eq)]
pub struct Download {
    pub id: String,
    pub filename: String,
    pub url: String,
    pub size: u64,
    pub downloaded: u64,
    pub status: DownloadStatus,
}

/// A page that was visited.
#[derive(Debug, PartialEq, Eq)]
pub struct HistoryEntry {
    pub url: String,
    pub title: String,
    pub visit_count: u32,
    /// Seconds since the Unix epoch at which the page was last visited.
    pub last_visit: u64,
}

/// The panels that the interface can show beside the page.
#[derive(Clone, Copy, Debug, PartialEq, Eq, Structural)]
pub enum Panel {
    DevTools,
    Downloads,
    Bookmarks,
    History,
    Settings,
    Sidebar,
}

/// The panel that `name` stands for, if it stands for one.
pub open spec fn panel_named(name: Seq<char>) -> Option<Panel> {
    if name == "dev_tools"@ {
        Some(Panel::DevTools)
    } else if name == "downloads"@ {
        Some(Panel::Downloads)
    } else if name == "bookmarks"@ {
        Some(Panel::Bookmarks)
    } else if name == "history"@ {
        Some(Panel::History)
    } else if name == "settings"@ {
        Some(Panel::Settings)
    } else if name == "sidebar"@ {
        Some(Panel::Sidebar)
    } else {
        None
    }
}

/// The panel that `name` stands for, if it stands for one.
pub fn parse_panel(name: &str) -> (p: Option<Panel>)
    ensures
        p == panel_named(name@),
{
    if same_text(name, "dev_tools") {
        Some(Panel::DevTools)
    } else if same_text(name, "downloads") {
        Some(Panel::Downloads)
    } else if same_text(name, "bookmarks") {
        Some(Panel::Bookmarks)
    } else if same_text(name, "history") {
        Some(Panel::History)
    } else if same_text(name, "settings") {
        Some(Panel::Settings)
    } else if same_text(name, "sidebar") {
        Some(Panel::Sidebar)
    } else {
        None
    }
}

/// The position of the first entry of `history` for `url`, or the length of
/// `history` if there is none.
pub open spec fn first_visit(history: Seq<HistoryEntry>, url: Seq<char>) -> int
    decreases history.len(),
{
    if history.len() == 0 {
        0
    } else if history[0].url@ == url {
        0
    } else {
        1 + first_visit(history.drop_first(), url)
    }
}

/// The position of the first download in `downloads` with the identifier
/// `id`, or the length of `downloads` if there is none.
pub open spec fn first_download(downloads: Seq<Download>, id: Seq<char>) -> int
    decreases downloads.len(),
{
    if downloads.len() == 0 {
        0
    } else if downloads[0].id@ == id {
        0
    } else {
        1 + first_download(downloads.drop_first(), id)
    }
}

/// The visit count after one more visit. It stops at the largest value.
pub open spec fn one_more(count: u32) -> u32 {
    if count < u32::MAX {
        (count + 1) as u32
    } else {
        count
    }
}

/// `history` after a visit of `url` at `now`. Where the address was visited
/// before, its first entry counts one visit more and is stamped anew. Else
/// `fresh` is added at the end, and a history that has then outgrown
/// [`HISTORY_LIMIT`] loses its [`HISTORY_TRIM`] oldest entries.
pub open spec fn history_after(
    history: Seq<HistoryEntry>,
    url: Seq<char>,
    fresh: HistoryEntry,
    now: u64,
) -> Seq<HistoryEntry> {
    let at = first_visit(history, url);
    if at < history.len() {
        history.update(
            at,
            HistoryEntry {
                visit_count: one_more(history[at].visit_count),
                last_visit: now,
                ..history[at]
            },
        )
    } else {
        let grown = history.push(fresh);
        if grown.len() > HISTORY_LIMIT {
            grown.skip(HISTORY_TRIM as int)
        } else {
            grown
        }
    }
}

/// `trail` after `url` was added at its end; a trail that has then outgrown
/// [`TRAIL_LIMIT`] loses its oldest address.
pub open spec fn trail_after(trail: Seq<String>, url: String) -> Seq<String> {
    let grown = trail.push(url);
    if grown.len() > TRAIL_LIMIT {
        grown.skip(1)
    } else {
        grown
    }
}

/// Which tab is active after the tab at `closed` left a row of `len` tabs in
/// which `active` was active. Here `len` counts the tabs before the closing.
pub open spec fn active_after_close(active: usize, closed: usize, len: int) -> int {
    if active >= len - 1 {
        len - 2
    } else if active > closed {
        active - 1
    } else {
        active as int
    }
}

/// `first_visit` is a position of the history or its length, the entry there
/// is for the address, and no earlier entry is.
proof fn lemma_first_visit(history: Seq<HistoryEntry>, url: Seq<char>)
    ensures
        0 <= first_visit(history, url) <= history.len(),
        first_visit(history, url) < history.len() ==> history[first_visit(history, url)].url@
            == url,
        forall|j: int| 0 <= j < first_visit(history, url) ==> (#[trigger] history[j]).url@ != url,
    decreases history.len(),
{
    if history.len() > 0 && history[0].url@ != url {
        let rest = history.drop_first();
        lemma_first_visit(rest, url);
        assert forall|j: int| 0 <= j < first_visit(history, url) implies (
        #[trigger] history[j]).url@ != url by {
            if j > 0 {
                assert(history[j] == rest[j - 1]);
            }
        }
    }
}

/// A position with these properties is the one that `first_visit` gives.
proof fn lemma_first_visit_is(history: Seq<HistoryEntry>, url: Seq<char>, at: int)
    requires
        0 <= at <= history.len(),
        at < history.len() ==> history[at].url@ == url,
        forall|j: int| 0 <= j < at ==> (#[trigger] history[j]).url@ != url,
    ensures
        first_visit(history, url) == at,
{
    lemma_first_visit(history, url);
    let f = first_visit(history, url);
    if f < at {
        assert(history[f].url@ != url);
    }
}

/// `first_download` is a position of the downloads or their number, the
/// download there has the identifier, and no earlier one has.
proof fn lemma_first_download(downloads: Seq<Download>, id: Seq<char>)
    ensures
        0 <= first_download(downloads, id) <= downloads.len(),
        first_download(downloads, id) < downloads.len() ==> downloads[first_download(
            downloads,
            id,
        )].id@ == id,
        forall|j: int|
            0 <= j < first_download(downloads, id) ==> (#[trigger] downloads[j]).id@ != id,
    decreases downloads.len(),
{
    if downloads.len() > 0 && downloads[0].id@ != id {
        let rest = downloads.drop_first();
        lemma_first_download(rest, id);
        assert forall|j: int| 0 <= j < first_download(downloads, id) implies (
        #[trigger] downloads[j]).id@ != id by {
            if j > 0 {
                assert(downloads[j] == rest[j - 1]);
            }
        }
    }
}

/// A position with these properties is the one that `first_download` gives.
proof fn lemma_first_download_is(downloads: Seq<Download>, id: Seq<char>, at: int)
    requires
        0 <= at <= downloads.len(),
        at < downloads.len() ==> downloads[at].id@ == id,
        forall|j: int| 0 <= j < at ==> (#[trigger] downloads[j]).id@ != id,
    ensures
        first_download(downloads, id) == at,
{
    lemma_first_download(downloads, id);
    let f = first_download(downloads, id);
    if f < at {
        assert(downloads[f].id@ != id);
    }
}

/// The position of the first entry of `history` for `url`, or the length of
/// `history` if there is none.
fn find_visit(history: &Vec<HistoryEntry>, url: &String) -> (at: usize)
    ensures
        at == first_visit(history@, url@),
        at <= history@.len(),
{
    let mut at: usize = 0;
    while at < history.len()
        invariant
            at <= history@.len(),
            forall|j: int| 0 <= j < at ==> (#[trigger] history@[j]).url@ != url@,
        decreases history@.len() - at,
    {
        if history[at].url == *url {
            proof {
                lemma_first_visit_is(history@, url@, at as int);
            }
            return at;
        }
        at += 1;
    }
    proof {
        lemma_first_visit_is(history@, url@, at as int);
    }
    at
}

/// Records a visit of `url` at `now` in `history`.
fn record_visit(history: &mut Vec<HistoryEntry>, url: String, title: String, now: u64)
    ensures
        final(history)@ == history_after(
            old(history)@,
            url@,
            HistoryEntry { url, title, visit_count: 1, last_visit: now },
            now,
        ),
{
    let at = find_visit(history, &url);
    if at < history.len() {
        let seen = &history[at];
        let count = if seen.visit_count < u32::MAX {
            seen.visit_count + 1
        } else {
            seen.visit_count
        };
        let entry = HistoryEntry {
            url: seen.url.clone(),
            title: seen.title.clone(),
            visit_count: count,
            last_visit: now,
        };
        history.set(at, entry);
    } else {
        history.push(HistoryEntry { url, title, visit_count: 1, last_visit: now });
        if history.len() > HISTORY_LIMIT {
            let ghost grown = history@;
            let mut rest = history.split_off(HISTORY_TRIM);
            std::mem::swap(history, &mut rest);
            assert(history@ =~= grown.skip(HISTORY_TRIM as int));
        }
    }
}

/// Adds `url` at the end of `trail` and keeps the trail within its limit.
fn extend_trail(trail: &mut VecDeque<String>, url: String)
    ensures
        final(trail)@ == trail_after(old(trail)@, url),
{
    trail.push_back(url);
    if trail.len() > TRAIL_LIMIT {
        let ghost grown = trail@;
        trail.pop_front();
        assert(trail@ =~= grown.skip(1));
    }
}

/// Everything the interface remembers between frames.
#[derive(Debug, PartialEq, Eq)]
pub struct BrowserUIState {
    pub tabs: Vec<BrowserTab>,
    pub active_tab_index: usize,
    pub url_input: String,
    pub search_input: String,
    /// The addresses that were visited last, oldest first.
    pub navigation_history: VecDeque<String>,
    pub show_dev_tools: bool,
    pub show_downloads: bool,
    pub show_bookmarks: bool,
    pub show_history: bool,
    pub show_settings: bool,
    pub show_sidebar: bool,
    pub private_mode: bool,
    pub javascript_enabled: bool,
    pub images_enabled: bool,
    pub webgl_enabled: bool,
    pub adblock_enabled: bool,
    pub genesis_connected: bool,
    pub genesis_node_status: String,
    pub bookmarks: Vec<Bookmark>,
    pub downloads: Vec<Download>,
    pub history: Vec<HistoryEntry>,
    pub passwords: Vec<SavedPassword>,
}

/// Whether `b` is the bookmark with this title, address and folder; its
/// identifier and its time of creation are left open.
pub open spec fn is_bookmark(b: Bookmark, title: Seq<char>, url: Seq<char>, folder: Seq<char>) -> bool {
    &&& b.title@ == title
    &&& b.url@ == url
    &&& b.folder matches Some(f)
    &&& f@ == folder
}

/// Whether `bookmarks` are the four that a new state starts with.
pub open spec fn are_default_bookmarks(bookmarks: Seq<Bookmark>) -> bool {
    &&& bookmarks.len() == 4
    &&& is_bookmark(bookmarks[0], "Genesis Home"@, "genesis://home"@, "Genesis"@)
    &&& is_bookmark(bookmarks[1], "Freedom Web"@, "freedom.free"@, "Genesis"@)
    &&& is_bookmark(bookmarks[2], "DeFi Exchange"@, "exchange.defi"@, "DeFi"@)
    &&& is_bookmark(bookmarks[3], "DAO Governance"@, "governance.dao"@, "DAO"@)
}

impl Default for BrowserUIState {
    /// The state at start: one tab on the welcome page, every panel closed,
    /// scripts, images and WebGL on, not yet connected, the four default
    /// bookmarks, and nothing else remembered.
    fn default() -> (s: Self)
        ensures
            s.tabs@.len() == 1,
            s.tabs@[0].is_new_for("genesis://welcome"@),
            s.active_tab_index == 0,
            s.url_input@ == "genesis://welcome"@,
            s.search_input@.len() == 0,
            s.navigation_history@.len() == 0,
            !s.show_dev_tools && !s.show_downloads && !s.show_bookmarks && !s.show_history
                && !s.show_settings && !s.show_sidebar,
            !s.private_mode && s.javascript_enabled && s.images_enabled && s.webgl_enabled
                && !s.adblock_enabled,
            !s.genesis_connected,
            s.genesis_node_status@ == "Connecting..."@,
            are_default_bookmarks(s.bookmarks@),
            s.downloads@.len() == 0,
            s.history@.len() == 0,
            s.passwords@.len() == 0,
    {
        let mut tabs: Vec<BrowserTab> = Vec::new();
        tabs.push(BrowserTab::new("genesis://welcome"));
        BrowserUIState {
            tabs,
            active_tab_index: 0,
            url_input: String::from_str("genesis://welcome"),
            search_input: String::new(),
            navigation_history: VecDeque::with_capacity(TRAIL_LIMIT),
            show_dev_tools: false,
            show_downloads: false,
            show_bookmarks: false,
            show_history: false,
            show_settings: false,
            show_sidebar: false,
            private_mode: false,
            javascript_enabled: true,
            images_enabled: true,
            webgl_enabled: true,
            adblock_enabled: false,
            genesis_connected: false,
            genesis_node_status: String::from_str("Connecting..."),
            bookmarks: BrowserUIState::default_bookmarks(),
            downloads: Vec::new(),
            history: Vec::new(),
            passwords: Vec::new(),
        }
    }
}

impl BrowserUIState {
    /// A bookmark made now, with a fresh identifier.
    fn bookmark(title: String, url: String, folder: Option<String>) -> (b: Bookmark)
        ensures
            b.title == title,
            b.url == url,
            b.folder == folder,
    {
        Bookmark { id: fresh_id(), title, url, folder, created_at: unix_now() }
    }

    /// The bookmarks that a new state starts with.
    pub fn default_bookmarks() -> (b: Vec<Bookmark>)
        ensures
            are_default_bookmarks(b@),
    {
        let mut b: Vec<Bookmark> = Vec::new();
        b.push(
            BrowserUIState::bookmark(
                String::from_str("Genesis Home"),
                String::from_str("genesis://home"),
                Some(String::from_str("Genesis")),
            ),
        );
        b.push(
            BrowserUIState::bookmark(
                String::from_str("Freedom Web"),
                String::from_str("freedom.free"),
                Some(String::from_str("Genesis")),
            ),
        );
        b.push(
            BrowserUIState::bookmark(
                String::from_str("DeFi Exchange"),
                String::from_str("exchange.defi"),
                Some(String::from_str("DeFi")),
            ),
        );
        b.push(
            BrowserUIState::bookmark(
                String::from_str("DAO Governance"),
                String::from_str("governance.dao"),
                Some(String::from_str("DAO")),
            ),
        );
        b
    }

    /// Opens a tab on `url` at the end of the row, makes it the active tab
    /// and returns its identifier.
    pub fn create_tab(&mut self, url: &str) -> (id: String)
        ensures
            final(self).tabs@.len() == old(self).tabs@.len() + 1,
            final(self).tabs@.drop_last() == old(self).tabs@,
            final(self).tabs@.last().is_new_for(url@),
            final(self).tabs@.last().id == id,
            final(self).active_tab_index == old(self).tabs@.len(),
            *final(self) == (BrowserUIState {
                tabs: final(self).tabs,
                active_tab_index: final(self).active_tab_index,
                ..*old(self)
            }),
    {
        let tab = BrowserTab::new(url);
        let id = tab.id.clone();
        self.tabs.push(tab);
        self.active_tab_index = self.tabs.len() - 1;
        assert(self.tabs@.drop_last() =~= old(self).tabs@);
        id
    }

    /// Closes the tab at `index`, unless it is the only tab or there is no
    /// such tab. Says whether a tab was closed. The active tab stays the
    /// same tab where it can; where the last tab of the row was active and a
    /// tab left, the new last tab is active.
    pub fn close_tab(&mut self, index: usize) -> (closed: bool)
        ensures
            closed == (old(self).tabs@.len() > 1 && index < old(self).tabs@.len()),
            closed ==> final(self).tabs@ == old(self).tabs@.remove(index as int)
                && final(self).active_tab_index == active_after_close(
                old(self).active_tab_index,
                index,
                old(self).tabs@.len() as int,
            ),
            !closed ==> final(self).tabs == old(self).tabs && final(self).active_tab_index == old(
                self,
            ).active_tab_index,
            *final(self) == (BrowserUIState {
                tabs: final(self).tabs,
                active_tab_index: final(self).active_tab_index,
                ..*old(self)
            }),
    {
        if self.tabs.len() > 1 && index < self.tabs.len() {
            self.tabs.remove(index);
            let current = self.active_tab_index;
            if current >= self.tabs.len() {
                self.active_tab_index = self.tabs.len() - 1;
            } else if current > index {
                self.active_tab_index = current - 1;
            }
            true
        } else {
            false
        }
    }

    /// Makes the tab at `index` the active one and puts its address in the
    /// address bar. Without such a tab nothing changes.
    pub fn switch_to_tab(&mut self, index: usize)
        ensures
            index < old(self).tabs@.len() ==> *final(self) == (BrowserUIState {
                active_tab_index: index,
                url_input: old(self).tabs@[index as int].url,
                ..*old(self)
            }),
            index >= old(self).tabs@.len() ==> *final(self) == *old(self),
    {
        if index < self.tabs.len() {
            self.active_tab_index = index;
            self.url_input = self.tabs[index].url.clone();
        }
    }

    /// A copy of the active tab, if the active index names a tab.
    pub fn get_active_tab(&self) -> (t: Option<BrowserTab>)
        ensures
            match t {
                Some(tab) => self.active_tab_index < self.tabs@.len() && tab
                    == self.tabs@[self.active_tab_index as int],
                None => self.active_tab_index >= self.tabs@.len(),
            },
    {
        if self.active_tab_index < self.tabs.len() {
            Some(self.tabs[self.active_tab_index].clone())
        } else {
            None
        }
    }

    /// Updates the tab at `index` with what is given. Without such a tab
    /// nothing changes.
    pub fn update_tab(
        &mut self,
        index: usize,
        title: Option<String>,
        url: Option<String>,
        is_loading: Option<bool>,
    )
        ensures
            index < old(self).tabs@.len() ==> final(self).tabs@ == old(self).tabs@.update(
                index as int,
                old(self).tabs@[index as int].updated(title, url, is_loading),
            ),
            index >= old(self).tabs@.len() ==> final(self).tabs == old(self).tabs,
            *final(self) == (BrowserUIState { tabs: final(self).tabs, ..*old(self) }),
    {
        if index < self.tabs.len() {
            let ghost before = self.tabs@[index as int];
            let mut tab = self.tabs[index].clone();
            match title {
                Some(t) => {
                    tab.title = t;
                },
                None => {},
            }
            match url {
                Some(u) => {
                    tab.is_genesis_domain = BrowserTab::check_genesis_domain(u.as_str());
                    tab.url = u;
                },
                None => {},
            }
            match is_loading {
                Some(loading) => {
                    tab.is_loading = loading;
                    if !loading {
                        tab.load_progress = LOAD_COMPLETE;
                    }
                },
                None => {},
            }
            assert(tab == before.updated(title, url, is_loading));
            self.tabs.set(index, tab);
        }
    }

    /// Adds a bookmark with a fresh identifier, made now, at the end.
    pub fn add_bookmark(&mut self, title: String, url: String, folder: Option<String>)
        ensures
            final(self).bookmarks@.len() == old(self).bookmarks@.len() + 1,
            final(self).bookmarks@.drop_last() == old(self).bookmarks@,
            final(self).bookmarks@.last().title == title,
            final(self).bookmarks@.last().url == url,
            final(self).bookmarks@.last().folder == folder,
            *final(self) == (BrowserUIState { bookmarks: final(self).bookmarks, ..*old(self) }),
    {
        let bookmark = BrowserUIState::bookmark(title, url, folder);
        self.bookmarks.push(bookmark);
        assert(self.bookmarks@.drop_last() =~= old(self).bookmarks@);
    }

    /// Removes every bookmark with the identifier `id`; the others stay in
    /// their order.
    pub fn remove_bookmark(&mut self, id: &str)
        ensures
            final(self).bookmarks@ == old(self).bookmarks@.filter(|b: Bookmark| b.id@ != id@),
            *final(self) == (BrowserUIState { bookmarks: final(self).bookmarks, ..*old(self) }),
    {
        let ghost all = self.bookmarks@;
        let ghost keep = |b: Bookmark| b.id@ != id@;
        let mut kept: usize = 0;
        let ghost mut seen: int = 0;
        proof {
            assert(all.take(0).filter(keep) =~= Seq::<Bookmark>::empty()) by {
                assert(all.take(0) =~= Seq::<Bookmark>::empty());
            }
            assert(all.skip(0) =~= all);
        }
        while kept < self.bookmarks.len()
            invariant
                0 <= seen <= all.len(),
                kept == all.take(seen).filter(keep).len(),
                self.bookmarks@ == all.take(seen).filter(keep) + all.skip(seen),
                keep == |b: Bookmark| b.id@ != id@,
                *self == (BrowserUIState { bookmarks: self.bookmarks, ..*old(self) }),
            decreases all.len() - seen,
        {
            proof {
                assert(self.bookmarks@[kept as int] == all.skip(seen)[0]);
                assert(seen < all.len());
                assert(all.take(seen + 1).drop_last() =~= all.take(seen));
                assert(all.take(seen + 1).last() == all[seen]);
                reveal_with_fuel(Seq::filter, 2);
            }
            let ghost before = self.bookmarks@;
            if same_text(self.bookmarks[kept].id.as_str(), id) {
                self.bookmarks.remove(kept);
                proof {
                    assert(all.take(seen + 1).filter(keep) == all.take(seen).filter(keep));
                    assert(self.bookmarks@ =~= all.take(seen + 1).filter(keep) + all.skip(
                        seen + 1,
                    ));
                    seen = seen + 1;
                }
            } else {
                proof {
                    assert(all.take(seen + 1).filter(keep) == all.take(seen).filter(keep).push(
                        all[seen],
                    ));
                    assert(self.bookmarks@ =~= all.take(seen + 1).filter(keep) + all.skip(
                        seen + 1,
                    ));
                    seen = seen + 1;
                }
                kept += 1;
            }
        }
        proof {
            assert(seen == all.len()) by {
                assert(self.bookmarks@.len() == kept + all.skip(seen).len());
            }
            assert(all.take(seen) =~= all);
            assert(self.bookmarks@ =~= all.filter(keep));
        }
    }

    /// Records a visit of `url` at `now`, in the history and in the
    /// navigation trail.
    pub fn add_to_history_at(&mut self, url: String, title: String, now: u64)
        ensures
            final(self).history@ == history_after(
                old(self).history@,
                url@,
                HistoryEntry { url, title, visit_count: 1, last_visit: now },
                now,
            ),
            final(self).navigation_history@ == trail_after(old(self).navigation_history@, url),
            *final(self) == (BrowserUIState {
                history: final(self).history,
                navigation_history: final(self).navigation_history,
                ..*old(self)
            }),
    {
        record_visit(&mut self.history, url.clone(), title, now);
        extend_trail(&mut self.navigation_history, url);
    }

    /// Records a visit of `url` now, in the history and in the navigation
    /// trail.
    pub fn add_to_history(&mut self, url: String, title: String)
        ensures
            exists|now: u64|
                final(self).history@ == #[trigger] history_after(
                    old(self).history@,
                    url@,
                    HistoryEntry { url, title, visit_count: 1, last_visit: now },
                    now,
                ),
            final(self).navigation_history@ == trail_after(old(self).navigation_history@, url),
            *final(self) == (BrowserUIState {
                history: final(self).history,
                navigation_history: final(self).navigation_history,
                ..*old(self)
            }),
    {
        let now = unix_now();
        self.add_to_history_at(url, title, now);
        assert(self.history@ == history_after(
            old(self).history@,
            url@,
            HistoryEntry { url, title, visit_count: 1, last_visit: now },
            now,
        ));
    }

    /// Forgets what the flags name: the history together with the
    /// navigation trail, the downloads, the saved passwords.
    pub fn clear_browsing_data(
        &mut self,
        clear_history: bool,
        clear_downloads: bool,
        clear_passwords: bool,
    )
        ensures
            final(self).history@ == if clear_history {
                Seq::<HistoryEntry>::empty()
            } else {
                old(self).history@
            },
            final(self).navigation_history@ == if clear_history {
                Seq::<String>::empty()
            } else {
                old(self).navigation_history@
            },
            final(self).downloads@ == if clear_downloads {
                Seq::<Download>::empty()
            } else {
                old(self).downloads@
            },
            final(self).passwords@ == if clear_passwords {
                Seq::<SavedPassword>::empty()
            } else {
                old(self).passwords@
            },
            *final(self) == (BrowserUIState {
                history: final(self).history,
                navigation_history: final(self).navigation_history,
                downloads: final(self).downloads,
                passwords: final(self).passwords,
                ..*old(self)
            }),
    {
        if clear_history {
            self.history.clear();
            self.navigation_history.clear();
        }
        if clear_downloads {
            self.downloads.clear();
        }
        if clear_passwords {
            self.passwords.clear();
        }
    }

    /// Adds a pending download with a fresh identifier at the end and
    /// returns the identifier.
    pub fn add_download(&mut self, filename: String, url: String, size: u64) -> (id: String)
        ensures
            final(self).downloads@.len() == old(self).downloads@.len() + 1,
            final(self).downloads@.drop_last() == old(self).downloads@,
            final(self).downloads@.last() == (Download {
                id,
                filename,
                url,
                size,
                downloaded: 0,
                status: DownloadStatus::Pending,
            }),
            *final(self) == (BrowserUIState { downloads: final(self).downloads, ..*old(self) }),
    {
        let download = Download {
            id: fresh_id(),
            filename,
            url,
            size,
            downloaded: 0,
            status: DownloadStatus::Pending,
        };
        let id = download.id.clone();
        self.downloads.push(download);
        assert(self.downloads@.drop_last() =~= old(self).downloads@);
        id
    }

    /// Sets the progress and the status of the first download with the
    /// identifier `id`. Without such a download nothing changes.
    pub fn update_download(&mut self, id: &str, downloaded: u64, status: DownloadStatus)
        ensures
            ({
                let at = first_download(old(self).downloads@, id@);
                if at < old(self).downloads@.len() {
                    final(self).downloads@ == old(self).downloads@.update(
                        at,
                        Download { downloaded, status, ..old(self).downloads@[at] },
                    )
                } else {
                    final(self).downloads == old(self).downloads
                }
            }),
            *final(self) == (BrowserUIState { downloads: final(self).downloads, ..*old(self) }),
    {
        let mut at: usize = 0;
        while at < self.downloads.len()
            invariant
                at <= self.downloads@.len(),
                *self == *old(self),
                forall|j: int| 0 <= j < at ==> (#[trigger] self.downloads@[j]).id@ != id@,
            decreases self.downloads@.len() - at,
        {
            if same_text(self.downloads[at].id.as_str(), id) {
                proof {
                    lemma_first_download_is(self.downloads@, id@, at as int);
                }
                let found = &self.downloads[at];
                let entry = Download {
                    id: found.id.clone(),
                    filename: found.filename.clone(),
                    url: found.url.clone(),
                    size: found.size,
                    downloaded,
                    status,
                };
                self.downloads.set(at, entry);
                return ;
            }
            at += 1;
        }
        proof {
            lemma_first_download_is(self.downloads@, id@, at as int);
        }
    }

    /// This state with `panel` shown if it was hidden and hidden if it was
    /// shown.
    pub open spec fn toggled(self, panel: Panel) -> BrowserUIState {
        match panel {
            Panel::DevTools => BrowserUIState { show_dev_tools: !self.show_dev_tools, ..self },
            Panel::Downloads => BrowserUIState { show_downloads: !self.show_downloads, ..self },
            Panel::Bookmarks => BrowserUIState { show_bookmarks: !self.show_bookmarks, ..self },
            Panel::History => BrowserUIState { show_history: !self.show_history, ..self },
            Panel::Settings => BrowserUIState { show_settings: !self.show_settings, ..self },
            Panel::Sidebar => BrowserUIState { show_sidebar: !self.show_sidebar, ..self },
        }
    }

    /// Shows or hides the panel called `panel`. A name that stands for no
    /// panel changes nothing.
    pub fn toggle_panel(&mut self, panel: &str)
        ensures
            *final(self) == match panel_named(panel@) {
                Some(p) => old(self).toggled(p),
                None => *old(self),
            },
    {
        match parse_panel(panel) {
            Some(Panel::DevTools) => {
                self.show_dev_tools = !self.show_dev_tools;
            },
            Some(Panel::Downloads) => {
                self.show_downloads = !self.show_downloads;
            },
            Some(Panel::Bookmarks) => {
                self.show_bookmarks = !self.show_bookmarks;
            },
            Some(Panel::History) => {
                self.show_history = !self.show_history;
            },
            Some(Panel::Settings) => {
                self.show_settings = !self.show_settings;
            },
            Some(Panel::Sidebar) => {
                self.show_sidebar = !self.show_sidebar;
            },
            None => {},
        }
    }
}

} // verus!
