use genesis_browser::browser_state::{
    parse_panel, BrowserTab, BrowserUIState, Download, DownloadStatus, Panel, HISTORY_LIMIT,
    HISTORY_TRIM, TRAIL_LIMIT,
};
use genesis_browser::ui::SavedPassword;

#[test]
fn new_tab_is_idle_and_knows_its_zone() {
    let t = BrowserTab::new("freedom.free");
    assert_eq!(t.title, "New Tab");
    assert_eq!(t.url, "freedom.free");
    assert_eq!(t.favicon, None);
    assert!(!t.is_loading && !t.can_go_back && !t.can_go_forward);
    assert!(t.is_genesis_domain);
    assert_eq!(t.load_progress, 0);
    assert_eq!(t.id.len(), 36);
    assert_ne!(t.id, BrowserTab::new("freedom.free").id);
    assert!(!BrowserTab::new("https://example.com").is_genesis_domain);
    assert_eq!(t.clone(), t);
}

#[test]
fn zone_mention_is_a_substring_test() {
    assert!(BrowserTab::check_genesis_domain("genesis://welcome"));
    assert!(BrowserTab::check_genesis_domain("http://a.genesis/path"));
    assert!(BrowserTab::check_genesis_domain("x.web.example.com"));
    assert!(BrowserTab::check_genesis_domain("a.defi"));
    assert!(BrowserTab::check_genesis_domain(".dao"));
    assert!(BrowserTab::check_genesis_domain("http://x.free?q=1"));
    assert!(!BrowserTab::check_genesis_domain(""));
    assert!(!BrowserTab::check_genesis_domain("genesis"));
    assert!(!BrowserTab::check_genesis_domain("https://example.com"));
    assert!(!BrowserTab::check_genesis_domain("a.GENESIS"));
    assert!(!BrowserTab::check_genesis_domain("genesis:/"));
}

#[test]
fn default_state_has_welcome_tab_and_four_bookmarks() {
    let s = BrowserUIState::default();
    assert_eq!(s.tabs.len(), 1);
    assert_eq!(s.tabs[0].url, "genesis://welcome");
    assert!(s.tabs[0].is_genesis_domain);
    assert_eq!(s.active_tab_index, 0);
    assert_eq!(s.url_input, "genesis://welcome");
    assert_eq!(s.search_input, "");
    assert!(s.navigation_history.is_empty());
    assert!(!s.show_dev_tools && !s.show_downloads && !s.show_bookmarks);
    assert!(!s.show_history && !s.show_settings && !s.show_sidebar);
    assert!(!s.private_mode && s.javascript_enabled && s.images_enabled && s.webgl_enabled);
    assert!(!s.adblock_enabled && !s.genesis_connected);
    assert_eq!(s.genesis_node_status, "Connecting...");
    let want = [
        ("Genesis Home", "genesis://home", "Genesis"),
        ("Freedom Web", "freedom.free", "Genesis"),
        ("DeFi Exchange", "exchange.defi", "DeFi"),
        ("DAO Governance", "governance.dao", "DAO"),
    ];
    assert_eq!(s.bookmarks.len(), 4);
    for (b, (title, url, folder)) in s.bookmarks.iter().zip(want) {
        assert_eq!(b.title, title);
        assert_eq!(b.url, url);
        assert_eq!(b.folder.as_deref(), Some(folder));
    }
    assert!(s.downloads.is_empty() && s.history.is_empty() && s.passwords.is_empty());
}

#[test]
fn create_tab_appends_and_activates() {
    let mut s = BrowserUIState::default();
    let id = s.create_tab("genesis://newtab");
    assert_eq!(s.tabs.len(), 2);
    assert_eq!(s.active_tab_index, 1);
    assert_eq!(s.tabs[1].id, id);
    assert_eq!(s.tabs[1].url, "genesis://newtab");
    assert_eq!(s.tabs[0].url, "genesis://welcome");
    assert_eq!(s.url_input, "genesis://welcome");
}

fn with_tabs(n: usize, active: usize) -> BrowserUIState {
    let mut s = BrowserUIState::default();
    for i in 1..n {
        s.create_tab(&format!("t{}", i));
    }
    s.active_tab_index = active;
    s
}

fn urls(s: &BrowserUIState) -> Vec<String> {
    s.tabs.iter().map(|t| t.url.clone()).collect()
}

#[test]
fn close_tab_keeps_the_active_tab_where_it_can() {
    // closing before the active tab shifts the index down
    let mut s = with_tabs(4, 2);
    assert!(s.close_tab(0));
    assert_eq!(urls(&s), ["t1", "t2", "t3"]);
    assert_eq!(s.active_tab_index, 1);
    // closing after the active tab leaves the index
    let mut s = with_tabs(4, 1);
    assert!(s.close_tab(2));
    assert_eq!(urls(&s), ["genesis://welcome", "t1", "t3"]);
    assert_eq!(s.active_tab_index, 1);
    // closing the active tab in the middle leaves the index on its successor
    let mut s = with_tabs(4, 1);
    assert!(s.close_tab(1));
    assert_eq!(s.active_tab_index, 1);
    assert_eq!(s.tabs[1].url, "t2");
    // closing while the last tab is active moves to the new last tab
    let mut s = with_tabs(4, 3);
    assert!(s.close_tab(3));
    assert_eq!(s.active_tab_index, 2);
    let mut s = with_tabs(4, 3);
    assert!(s.close_tab(0));
    assert_eq!(s.active_tab_index, 2);
    assert_eq!(s.tabs[2].url, "t3");
}

#[test]
fn close_tab_refuses_the_only_tab_and_unknown_indexes() {
    let mut s = BrowserUIState::default();
    assert!(!s.close_tab(0));
    assert_eq!(s.tabs.len(), 1);
    let mut s = with_tabs(3, 1);
    assert!(!s.close_tab(3));
    assert!(!s.close_tab(usize::MAX));
    assert_eq!(s.tabs.len(), 3);
    assert_eq!(s.active_tab_index, 1);
}

#[test]
fn close_tab_with_a_stale_active_index() {
    let mut s = with_tabs(3, 9);
    assert!(s.close_tab(1));
    assert_eq!(s.active_tab_index, 1);
}

#[test]
fn switch_to_tab_sets_index_and_address_bar() {
    let mut s = with_tabs(3, 0);
    s.switch_to_tab(2);
    assert_eq!(s.active_tab_index, 2);
    assert_eq!(s.url_input, "t2");
    s.switch_to_tab(3);
    assert_eq!(s.active_tab_index, 2);
    assert_eq!(s.url_input, "t2");
    assert_eq!(s.get_active_tab().unwrap().url, "t2");
    s.active_tab_index = 7;
    assert_eq!(s.get_active_tab(), None);
}

#[test]
fn update_tab_takes_what_is_given() {
    let mut s = with_tabs(2, 0);
    s.update_tab(1, Some("Title".to_string()), Some("a.genesis".to_string()), Some(true));
    assert_eq!(s.tabs[1].title, "Title");
    assert_eq!(s.tabs[1].url, "a.genesis");
    assert!(s.tabs[1].is_genesis_domain);
    assert!(s.tabs[1].is_loading);
    assert_eq!(s.tabs[1].load_progress, 0);
    s.update_tab(1, None, None, Some(false));
    assert_eq!(s.tabs[1].title, "Title");
    assert!(!s.tabs[1].is_loading);
    assert_eq!(s.tabs[1].load_progress, 100);
    s.update_tab(1, None, Some("https://example.com".to_string()), None);
    assert!(!s.tabs[1].is_genesis_domain);
    assert_eq!(s.tabs[1].load_progress, 100);
    let before = s.tabs.clone();
    s.update_tab(2, Some("x".to_string()), None, None);
    assert_eq!(s.tabs, before);
    assert_eq!(s.tabs[0].title, "New Tab");
}

#[test]
fn bookmarks_are_added_at_the_end_and_removed_by_id() {
    let mut s = BrowserUIState::default();
    s.add_bookmark("A".to_string(), "a.web".to_string(), None);
    s.add_bookmark("B".to_string(), "b.web".to_string(), Some("F".to_string()));
    assert_eq!(s.bookmarks.len(), 6);
    assert_eq!(s.bookmarks[4].title, "A");
    assert_eq!(s.bookmarks[4].folder, None);
    assert_eq!(s.bookmarks[5].url, "b.web");
    assert_eq!(s.bookmarks[5].folder.as_deref(), Some("F"));
    assert_ne!(s.bookmarks[4].id, s.bookmarks[5].id);
    let gone = s.bookmarks[1].id.clone();
    s.remove_bookmark(&gone);
    let titles: Vec<&str> = s.bookmarks.iter().map(|b| b.title.as_str()).collect();
    assert_eq!(titles, ["Genesis Home", "DeFi Exchange", "DAO Governance", "A", "B"]);
    s.remove_bookmark("no such id");
    assert_eq!(s.bookmarks.len(), 5);
}

#[test]
fn remove_bookmark_takes_every_entry_with_the_id() {
    let mut s = BrowserUIState::default();
    s.bookmarks[0].id = "dup".to_string();
    s.bookmarks[2].id = "dup".to_string();
    s.bookmarks[3].id = "dup".to_string();
    s.remove_bookmark("dup");
    assert_eq!(s.bookmarks.len(), 1);
    assert_eq!(s.bookmarks[0].title, "Freedom Web");
    let last = s.bookmarks[0].id.clone();
    s.remove_bookmark(&last);
    assert!(s.bookmarks.is_empty());
    s.remove_bookmark(&last);
    assert!(s.bookmarks.is_empty());
}

#[test]
fn history_counts_repeated_visits() {
    let mut s = BrowserUIState::default();
    s.add_to_history_at("a".to_string(), "A".to_string(), 10);
    s.add_to_history_at("b".to_string(), "B".to_string(), 11);
    s.add_to_history_at("a".to_string(), "other title".to_string(), 12);
    assert_eq!(s.history.len(), 2);
    assert_eq!(s.history[0].url, "a");
    assert_eq!(s.history[0].title, "A");
    assert_eq!(s.history[0].visit_count, 2);
    assert_eq!(s.history[0].last_visit, 12);
    assert_eq!(s.history[1].visit_count, 1);
    assert_eq!(s.history[1].last_visit, 11);
    assert_eq!(s.navigation_history, ["a", "b", "a"]);
}

#[test]
fn history_visit_count_stops_at_the_top() {
    let mut s = BrowserUIState::default();
    s.add_to_history_at("a".to_string(), "A".to_string(), 1);
    s.history[0].visit_count = u32::MAX - 1;
    s.add_to_history_at("a".to_string(), "A".to_string(), 2);
    assert_eq!(s.history[0].visit_count, u32::MAX);
    s.add_to_history_at("a".to_string(), "A".to_string(), 3);
    assert_eq!(s.history[0].visit_count, u32::MAX);
    assert_eq!(s.history[0].last_visit, 3);
}

#[test]
fn history_loses_its_oldest_hundred_past_the_limit() {
    let mut s = BrowserUIState::default();
    for i in 0..HISTORY_LIMIT {
        s.add_to_history_at(format!("u{}", i), "t".to_string(), i as u64);
    }
    assert_eq!(s.history.len(), 1000);
    assert_eq!(s.history[0].url, "u0");
    // a repeated visit does not grow the history
    s.add_to_history_at("u5".to_string(), "t".to_string(), 5000);
    assert_eq!(s.history.len(), 1000);
    s.add_to_history_at("u1000".to_string(), "t".to_string(), 1000);
    assert_eq!(s.history.len(), 1001 - HISTORY_TRIM);
    assert_eq!(s.history[0].url, "u100");
    assert_eq!(s.history[900].url, "u1000");
}

#[test]
fn trail_holds_the_last_hundred_addresses() {
    let mut s = BrowserUIState::default();
    for i in 0..TRAIL_LIMIT {
        s.add_to_history_at("same".to_string(), "t".to_string(), i as u64);
    }
    assert_eq!(s.navigation_history.len(), 100);
    s.add_to_history_at("next".to_string(), "t".to_string(), 0);
    assert_eq!(s.navigation_history.len(), 100);
    assert_eq!(s.navigation_history.front().unwrap(), "same");
    assert_eq!(s.navigation_history.back().unwrap(), "next");
    assert_eq!(s.history.len(), 2);
    assert_eq!(s.history[0].visit_count, 100);
}

#[test]
fn history_with_the_clock_stamps_the_present() {
    let mut s = BrowserUIState::default();
    let before = chrono::Utc::now().timestamp() as u64;
    s.add_to_history("a".to_string(), "A".to_string());
    let after = chrono::Utc::now().timestamp() as u64;
    assert!(before <= s.history[0].last_visit && s.history[0].last_visit <= after);
    assert_eq!(s.history[0].visit_count, 1);
    assert_eq!(s.navigation_history, ["a"]);
}

fn filled() -> BrowserUIState {
    let mut s = BrowserUIState::default();
    s.add_to_history_at("a".to_string(), "A".to_string(), 1);
    s.add_download("f".to_string(), "u".to_string(), 9);
    s.passwords.push(SavedPassword {
        domain: "d".to_string(),
        username: "n".to_string(),
        encrypted_password: vec![1, 2, 3],
    });
    s
}

#[test]
fn clear_browsing_data_clears_what_is_named() {
    let mut s = filled();
    s.clear_browsing_data(false, false, false);
    assert_eq!((s.history.len(), s.downloads.len(), s.passwords.len()), (1, 1, 1));
    s.clear_browsing_data(true, false, false);
    assert!(s.history.is_empty() && s.navigation_history.is_empty());
    assert_eq!((s.downloads.len(), s.passwords.len()), (1, 1));
    s.clear_browsing_data(false, true, false);
    assert!(s.downloads.is_empty());
    assert_eq!(s.passwords.len(), 1);
    s.clear_browsing_data(false, false, true);
    assert!(s.passwords.is_empty());
    assert_eq!(s.bookmarks.len(), 4);
    assert_eq!(s.tabs.len(), 1);
    let mut s = filled();
    s.clear_browsing_data(true, true, true);
    assert!(s.history.is_empty() && s.downloads.is_empty() && s.passwords.is_empty());
}

#[test]
fn downloads_start_pending_and_are_updated_by_id() {
    let mut s = BrowserUIState::default();
    let a = s.add_download("a.bin".to_string(), "http://x/a".to_string(), 100);
    let b = s.add_download("b.bin".to_string(), "http://x/b".to_string(), 200);
    assert_ne!(a, b);
    assert_eq!(
        s.downloads[0],
        Download {
            id: a.clone(),
            filename: "a.bin".to_string(),
            url: "http://x/a".to_string(),
            size: 100,
            downloaded: 0,
            status: DownloadStatus::Pending,
        }
    );
    s.update_download(&b, 50, DownloadStatus::InProgress(25));
    assert_eq!(s.downloads[1].downloaded, 50);
    assert_eq!(s.downloads[1].status, DownloadStatus::InProgress(25));
    assert_eq!(s.downloads[1].filename, "b.bin");
    assert_eq!(s.downloads[0].status, DownloadStatus::Pending);
    s.update_download("none", 1, DownloadStatus::Failed("x".to_string()));
    assert_eq!(s.downloads[0].downloaded, 0);
    assert_eq!(s.downloads[1].downloaded, 50);
    s.downloads[1].id = a.clone();
    s.update_download(&a, 100, DownloadStatus::Completed);
    assert_eq!(s.downloads[0].status, DownloadStatus::Completed);
    assert_eq!(s.downloads[1].status, DownloadStatus::InProgress(25));
}

#[test]
fn panels_toggle_by_name() {
    let mut s = BrowserUIState::default();
    s.toggle_panel("dev_tools");
    assert!(s.show_dev_tools);
    s.toggle_panel("dev_tools");
    assert!(!s.show_dev_tools);
    s.toggle_panel("downloads");
    s.toggle_panel("bookmarks");
    s.toggle_panel("history");
    s.toggle_panel("settings");
    s.toggle_panel("sidebar");
    assert!(s.show_downloads && s.show_bookmarks && s.show_history);
    assert!(s.show_settings && s.show_sidebar && !s.show_dev_tools);
    let before = (s.show_downloads, s.show_bookmarks, s.show_history, s.show_settings);
    s.toggle_panel("Sidebar");
    s.toggle_panel("");
    s.toggle_panel("devtools");
    assert!(s.show_sidebar && !s.show_dev_tools);
    assert_eq!(before, (s.show_downloads, s.show_bookmarks, s.show_history, s.show_settings));
    assert_eq!(parse_panel("settings"), Some(Panel::Settings));
    assert_eq!(parse_panel("dev_tools"), Some(Panel::DevTools));
    assert_eq!(parse_panel("panel"), None);
}
