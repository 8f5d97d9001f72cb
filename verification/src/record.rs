//! The record that a resolution yields, and the counts kept over a cache.

use vstd::prelude::*;
use crate::address::IpAddress;

verus! {

/// The resolution path that produced a record.
#[derive(Clone, Copy, Debug, PartialEq, Eq, Hash, Structural)]
pub enum ResolverType {
    /// The blockchain name service answered with a host address.
    Genesis,
    /// Conventional DNS answered.
    Traditional,
    /// The blockchain name service answered with a content reference.
    IPFS,
    /// Reserved for answers that combine both paths.
    Hybrid,
}

/// What the content scheme puts in front of a content hash.
pub open spec fn content_scheme() -> Seq<char> {
    "ipfs://"@
}

/// The view of an optional string: its characters, if it is there.
pub open spec fn opt_text(s: Option<String>) -> Option<Seq<char>> {
    match s {
        Some(t) => Some(t@),
        None => None,
    }
}

/// The result of resolving one domain.
#[derive(Debug, PartialEq, Eq)]
pub struct DnsResult {
    /// The name that was asked for, exactly as it was supplied.
    pub domain: String,
    /// The host the name maps to, if it maps to one.
    pub ip_address: Option<IpAddress>,
    /// The content-addressed identifier the name maps to, if it maps to one.
    pub content_hash: Option<String>,
    /// The path that produced this record.
    pub resolver_type: ResolverType,
    /// Seconds for which the record stays valid after `timestamp`.
    pub ttl: u64,
    /// Seconds since the Unix epoch at which the record was made.
    pub timestamp: u64,
}

/// The mathematical value of a [`DnsResult`].
pub struct DnsResultView {
    pub domain: Seq<char>,
    pub ip_address: Option<IpAddress>,
    pub content_hash: Option<Seq<char>>,
    pub resolver_type: ResolverType,
    pub ttl: u64,
    pub timestamp: u64,
}

/// How a record is shown: as an address, or as a piece of text.
#[derive(Debug, PartialEq, Eq)]
pub enum DisplayForm {
    Address(IpAddress),
    Text(String),
}

/// The mathematical value of a [`DisplayForm`].
pub enum DisplayFormView {
    Address(IpAddress),
    Text(Seq<char>),
}

impl View for DisplayForm {
    type V = DisplayFormView;

    open spec fn view(&self) -> DisplayFormView {
        match self {
            DisplayForm::Address(a) => DisplayFormView::Address(*a),
            DisplayForm::Text(t) => DisplayFormView::Text(t@),
        }
    }
}

impl DnsResultView {
    /// A record is expired at `now` once `now` lies strictly after
    /// `timestamp + ttl`; at `timestamp + ttl` itself it is still valid.
    pub open spec fn is_expired(self, now: u64) -> bool {
        now > self.timestamp + self.ttl
    }

    /// The address if there is one, else the content hash behind the content
    /// scheme if there is one, else the domain.
    pub open spec fn display_form(self) -> DisplayFormView {
        match self.ip_address {
            Some(a) => DisplayFormView::Address(a),
            None => match self.content_hash {
                Some(h) => DisplayFormView::Text(content_scheme() + h),
                None => DisplayFormView::Text(self.domain),
            },
        }
    }

    /// Exactly one of the address and the content hash is present.
    pub open spec fn has_one_target(self) -> bool {
        self.ip_address is Some != self.content_hash is Some
    }
}

impl View for DnsResult {
    type V = DnsResultView;

    open spec fn view(&self) -> DnsResultView {
        DnsResultView {
            domain: self.domain@,
            ip_address: self.ip_address,
            content_hash: opt_text(self.content_hash),
            resolver_type: self.resolver_type,
            ttl: self.ttl,
            timestamp: self.timestamp,
        }
    }
}

/// A copy of an optional string.
fn clone_opt_string(s: &Option<String>) -> (r: Option<String>)
    ensures
        opt_text(r) == opt_text(*s),
{
    match s {
        Some(t) => Some(t.clone()),
        None => None,
    }
}

impl Clone for DnsResult {
    fn clone(&self) -> (r: Self)
        ensures
            r@ == self@,
    {
        DnsResult {
            domain: self.domain.clone(),
            ip_address: self.ip_address,
            content_hash: clone_opt_string(&self.content_hash),
            resolver_type: self.resolver_type,
            ttl: self.ttl,
            timestamp: self.timestamp,
        }
    }
}

impl DnsResult {
    /// Whether the record is expired at `now`. The sum `timestamp + ttl` is
    /// taken without wrapping: where it exceeds every `u64`, no `now` lies
    /// after it.
    pub fn is_expired_at(&self, now: u64) -> (b: bool)
        ensures
            b == self@.is_expired(now),
    {
        match self.timestamp.checked_add(self.ttl) {
            Some(deadline) => now > deadline,
            None => false,
        }
    }

    /// How the record is shown to a user.
    pub fn display_form(&self) -> (f: DisplayForm)
        ensures
            f@ == self@.display_form(),
    {
        match self.ip_address {
            Some(a) => DisplayForm::Address(a),
            None => match &self.content_hash {
                Some(h) => {
                    let mut text = String::from_str("ipfs://");
                    text.append(h.as_str());
                    DisplayForm::Text(text)
                },
                None => DisplayForm::Text(self.domain.clone()),
            },
        }
    }
}

/// Counts over the entries of a cache.
#[derive(Clone, Copy, Debug, PartialEq, Eq, Structural)]
pub struct CacheStats {
    /// How many entries the cache holds.
    pub total_entries: usize,
    /// How many of them came from the blockchain name service with an address.
    pub genesis_domains: usize,
    /// How many of them came from conventional DNS.
    pub traditional_domains: usize,
}

} // verus!
