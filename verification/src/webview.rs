//! What a web view decides for itself: how it completes an address that was
//! typed, where it fetches a resolved name from, and how it walks its
//! history.

use vstd::prelude::*;
use crate::address::IpAddress;
use crate::error::{DnsError, DnsErrorView};
use crate::record::{DnsResult, DnsResultView};
use crate::text::{chars_of, has_infix, has_prefix, occurs_in};

verus! {

/// How far a page can be trusted.
#[derive(Clone, Copy, Debug, PartialEq, Eq, Structural)]
pub enum SecurityState {
    /// Served over HTTPS, or verified on the blockchain.
    Secure,
    /// Served over HTTP.
    Insecure,
    /// Secure page with insecure parts.
    Broken,
    /// A name of the blockchain name service.
    Genesis,
}

/// The level of a console message.
#[derive(Clone, Copy, Debug, PartialEq, Eq, Structural)]
pub enum ConsoleLevel {
    Log,
    Info,
    Warn,
    Error,
}

/// A message that a page wrote to its console.
#[derive(Debug, PartialEq, Eq)]
pub struct ConsoleMessage {
    pub level: ConsoleLevel,
    pub message: String,
    pub source: String,
    pub line: u32,
}

impl Clone for ConsoleMessage {
    fn clone(&self) -> (c: Self)
        ensures
            c.level == self.level,
            c.message@ == self.message@,
            c.source@ == self.source@,
            c.line == self.line,
    {
        ConsoleMessage {
            level: self.level,
            message: self.message.clone(),
            source: self.source.clone(),
            line: self.line,
        }
    }
}

/// Whether `url` names its scheme as `http://` or `https://`.
pub open spec fn has_web_scheme(url: Seq<char>) -> bool {
    "http://"@.is_prefix_of(url) || "https://"@.is_prefix_of(url)
}

/// `url` as it is, if it names a web scheme; else with `http://` before it.
pub open spec fn default_scheme(url: Seq<char>) -> Seq<char> {
    if has_web_scheme(url) {
        url
    } else {
        "http://"@ + url
    }
}

/// Completes an address that was typed without a scheme.
pub fn with_default_scheme(url: &str) -> (full: String)
    ensures
        full@ == default_scheme(url@),
{
    let typed = chars_of(url);
    if has_prefix(&typed, "http://") || has_prefix(&typed, "https://") {
        String::from_str(url)
    } else {
        let mut full = String::from_str("http://");
        full.append(url);
        full
    }
}

/// Where a page is fetched from once its name is resolved.
#[derive(Debug, PartialEq, Eq)]
pub enum FetchTarget {
    /// From this host, in place of the name.
    Host(IpAddress),
    /// From this address of the content gateway, in place of the whole URL.
    Gateway(String),
    /// From the URL as it stands.
    Unchanged,
}

/// The mathematical value of a [`FetchTarget`].
pub enum FetchTargetView {
    Host(IpAddress),
    Gateway(Seq<char>),
    Unchanged,
}

impl View for FetchTarget {
    type V = FetchTargetView;

    open spec fn view(&self) -> FetchTargetView {
        match self {
            FetchTarget::Host(a) => FetchTargetView::Host(*a),
            FetchTarget::Gateway(u) => FetchTargetView::Gateway(u@),
            FetchTarget::Unchanged => FetchTargetView::Unchanged,
        }
    }
}

/// The fetch target for a record: its address if it has one, else its
/// content hash at the gateway if it has one, else no change.
pub open spec fn fetch_target_of(record: DnsResultView) -> FetchTargetView {
    match record.ip_address {
        Some(a) => FetchTargetView::Host(a),
        None => match record.content_hash {
            Some(h) => FetchTargetView::Gateway("https://ipfs.io/ipfs/"@ + h),
            None => FetchTargetView::Unchanged,
        },
    }
}

/// Where to fetch a page whose name resolved to `record`.
pub fn fetch_target(record: &DnsResult) -> (t: FetchTarget)
    ensures
        t@ == fetch_target_of(record@),
{
    match record.ip_address {
        Some(a) => FetchTarget::Host(a),
        None => match &record.content_hash {
            Some(h) => {
                let mut url = String::from_str("https://ipfs.io/ipfs/");
                url.append(h.as_str());
                FetchTarget::Gateway(url)
            },
            None => FetchTarget::Unchanged,
        },
    }
}

/// What a view reports when a name of the name service did not resolve.
pub open spec fn load_error_of(error: DnsErrorView) -> Seq<char> {
    "Failed to resolve Genesis domain: "@ + error.message()
}

/// The text of the load error for a failed resolution.
pub fn load_error_text(error: &DnsError) -> (text: String)
    ensures
        text@ == load_error_of(error@),
{
    let mut text = String::from_str("Failed to resolve Genesis domain: ");
    let message = error.message();
    text.append(message.as_str());
    text
}

/// Whether `url` holds one of the five labels of the blockchain name service
/// anywhere in its text.
pub open spec fn mentions_label(url: Seq<char>) -> bool {
    ||| occurs_in(".genesis"@, url)
    ||| occurs_in(".free"@, url)
    ||| occurs_in(".web"@, url)
    ||| occurs_in(".defi"@, url)
    ||| occurs_in(".dao"@, url)
}

/// What the window shows as the state of name resolution for `url`.
pub open spec fn dns_status_of(url: Seq<char>) -> Seq<char> {
    if mentions_label(url) {
        "Genesis DNS Active"@
    } else {
        "Traditional DNS"@
    }
}

/// The state of name resolution that the window shows once it has gone to
/// `url`, and whether it counts the name service as connected.
pub fn dns_status_for(url: &str) -> (status: (String, bool))
    ensures
        status.0@ == dns_status_of(url@),
        status.1 == mentions_label(url@),
{
    let text = chars_of(url);
    let genesis = has_infix(&text, ".genesis") || has_infix(&text, ".free") || has_infix(
        &text,
        ".web",
    ) || has_infix(&text, ".defi") || has_infix(&text, ".dao");
    if genesis {
        (String::from_str("Genesis DNS Active"), true)
    } else {
        (String::from_str("Traditional DNS"), false)
    }
}

/// The pages that a view has visited, and which of them it shows.
///
/// The position always points at one of the visited pages, unless none was
/// visited yet.
pub struct NavigationHistory {
    entries: Vec<String>,
    position: usize,
}

/// The mathematical value of a [`NavigationHistory`].
pub struct HistoryView {
    /// The visited addresses, oldest first.
    pub entries: Seq<Seq<char>>,
    /// The index of the page that is shown; 0 while nothing was visited.
    pub position: int,
}

impl HistoryView {
    /// The position points at a visited page, or nothing was visited.
    pub open spec fn wf(self) -> bool {
        if self.entries.len() == 0 {
            self.position == 0
        } else {
            0 <= self.position < self.entries.len()
        }
    }

    /// Whether there is an older page to go back to.
    pub open spec fn can_go_back(self) -> bool {
        self.position > 0
    }

    /// Whether there is a newer page to go forward to.
    pub open spec fn can_go_forward(self) -> bool {
        self.entries.len() > 0 && self.position < self.entries.len() - 1
    }

    /// The history after `url` was visited: what lay ahead of the position
    /// is dropped, `url` is added at the end and becomes the position.
    pub open spec fn visited(self, url: Seq<char>) -> HistoryView {
        let kept = if self.can_go_forward() {
            self.entries.take(self.position + 1)
        } else {
            self.entries
        };
        HistoryView { entries: kept.push(url), position: kept.len() as int }
    }
}

/// The characters of each string of `v`.
pub open spec fn texts(v: Seq<String>) -> Seq<Seq<char>> {
    v.map_values(|s: String| s@)
}

impl View for NavigationHistory {
    type V = HistoryView;

    closed spec fn view(&self) -> HistoryView {
        HistoryView { entries: texts(self.entries@), position: self.position as int }
    }
}

impl NavigationHistory {
    #[verifier::type_invariant]
    spec fn position_in_range(self) -> bool {
        if self.entries@.len() == 0 {
            self.position == 0
        } else {
            self.position < self.entries@.len()
        }
    }

    /// The history of a view that has visited nothing.
    pub fn new() -> (h: Self)
        ensures
            h@.entries.len() == 0,
            h@.position == 0,
            h@.wf(),
    {
        NavigationHistory { entries: Vec::new(), position: 0 }
    }

    /// How many pages were visited.
    pub fn len(&self) -> (n: usize)
        ensures
            n == self@.entries.len(),
            self@.wf(),
    {
        proof {
            use_type_invariant(self);
        }
        self.entries.len()
    }

    /// The address of the page that is shown, if any was visited.
    pub fn current(&self) -> (url: Option<&String>)
        ensures
            self@.wf(),
            match url {
                Some(u) => self@.entries.len() > 0 && u@ == self@.entries[self@.position],
                None => self@.entries.len() == 0,
            },
    {
        proof {
            use_type_invariant(self);
        }
        if self.entries.len() == 0 {
            None
        } else {
            Some(&self.entries[self.position])
        }
    }

    /// Whether there is an older page to go back to.
    pub fn can_go_back(&self) -> (b: bool)
        ensures
            b == self@.can_go_back(),
    {
        self.position > 0
    }

    /// Whether there is a newer page to go forward to.
    pub fn can_go_forward(&self) -> (b: bool)
        ensures
            b == self@.can_go_forward(),
    {
        proof {
            use_type_invariant(self);
        }
        self.entries.len() > 0 && self.position < self.entries.len() - 1
    }

    /// Records a visit of `url`.
    pub fn add_to_history(&mut self, url: String)
        ensures
            final(self)@ == old(self)@.visited(url@),
            final(self)@.wf(),
    {
        proof {
            use_type_invariant(&*self);
        }
        let position = self.position;
        self.position = 0;
        let mut entries: Vec<String> = Vec::new();
        std::mem::swap(&mut self.entries, &mut entries);
        let ghost before = entries@;
        if entries.len() > 0 && position < entries.len() - 1 {
            entries.truncate(position + 1);
            assert(texts(entries@) =~= texts(before).take(position + 1));
        }
        let ghost kept = entries@;
        entries.push(url);
        assert(texts(entries@) =~= texts(kept).push(url@));
        let last = entries.len() - 1;
        self.entries = entries;
        self.position = last;
    }

    /// Steps back by one page, if there is one, and returns the address of
    /// the page that is then shown.
    pub fn go_back(&mut self) -> (url: Option<String>)
        ensures
            final(self)@.entries == old(self)@.entries,
            final(self)@.wf(),
            match url {
                Some(u) => old(self)@.can_go_back() && final(self)@.position == old(self)@.position
                    - 1 && u@ == old(self)@.entries[old(self)@.position - 1],
                None => !old(self)@.can_go_back() && final(self)@.position == old(self)@.position,
            },
    {
        proof {
            use_type_invariant(&*self);
        }
        if self.position > 0 {
            self.position = self.position - 1;
            Some(self.entries[self.position].clone())
        } else {
            None
        }
    }

    /// Steps forward by one page, if there is one, and returns the address
    /// of the page that is then shown.
    pub fn go_forward(&mut self) -> (url: Option<String>)
        ensures
            final(self)@.entries == old(self)@.entries,
            final(self)@.wf(),
            match url {
                Some(u) => old(self)@.can_go_forward() && final(self)@.position == old(
                    self,
                )@.position + 1 && u@ == old(self)@.entries[old(self)@.position + 1],
                None => !old(self)@.can_go_forward() && final(self)@.position == old(
                    self,
                )@.position,
            },
    {
        proof {
            use_type_invariant(&*self);
        }
        if self.entries.len() > 0 && self.position < self.entries.len() - 1 {
            self.position = self.position + 1;
            Some(self.entries[self.position].clone())
        } else {
            None
        }
    }
}

} // verus!
