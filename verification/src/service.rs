//! What the two resolution paths hand back, and what each answer means.
//!
//! The library does no network I/O. Whoever drives it asks the blockchain name
//! service or the conventional resolver and reports what came back as a
//! [`GenesisResponse`] or a [`LookupOutcome`]; the functions here turn such an
//! answer into a record or an error.

use vstd::prelude::*;
use crate::address::IpAddress;
use crate::error::{DnsError, DnsErrorView};
use crate::record::{opt_text, DnsResult, DnsResultView, ResolverType};

verus! {

/// Seconds for which a name-service record is valid when the service names no
/// time to live.
pub const DEFAULT_GENESIS_TTL: u64 = 3600;

/// Seconds for which an answer of conventional DNS is valid.
pub const TRADITIONAL_TTL: u64 = 300;

/// The description carried by the error for a name-service record that maps
/// the name to nothing.
pub open spec fn no_target_detail() -> Seq<char> {
    "record holds neither an address nor a content hash"@
}

/// A domain record as the blockchain name service holds it.
#[derive(Debug, PartialEq, Eq)]
pub struct GenesisDomain {
    /// The registered name.
    pub name: String,
    /// Who owns the name.
    pub owner: String,
    /// Which resolver contract answers for it.
    pub resolver: String,
    /// The content-addressed identifier the name points to, if any.
    pub content_hash: Option<String>,
    /// The address that the service's address text stands for; `None` where
    /// the service sent no such text or sent text that is no address.
    pub ip_address: Option<IpAddress>,
    /// Seconds for which the record may be cached, if the service says.
    pub ttl: Option<u64>,
}

/// The mathematical value of a [`GenesisDomain`].
pub struct GenesisDomainView {
    pub name: Seq<char>,
    pub owner: Seq<char>,
    pub resolver: Seq<char>,
    pub content_hash: Option<Seq<char>>,
    pub ip_address: Option<IpAddress>,
    pub ttl: Option<u64>,
}

impl View for GenesisDomain {
    type V = GenesisDomainView;

    open spec fn view(&self) -> GenesisDomainView {
        GenesisDomainView {
            name: self.name@,
            owner: self.owner@,
            resolver: self.resolver@,
            content_hash: opt_text(self.content_hash),
            ip_address: self.ip_address,
            ttl: self.ttl,
        }
    }
}

impl GenesisDomainView {
    /// The time to live of the record made from this one.
    pub open spec fn effective_ttl(self) -> u64 {
        match self.ttl {
            Some(t) => t,
            None => DEFAULT_GENESIS_TTL,
        }
    }

    /// The record that answers a query for `domain` at `now`.
    ///
    /// With an address, the record holds the address alone and is marked as
    /// coming from the name service. Without one but with a content hash, it
    /// holds the hash alone and is marked as content-addressed. With neither
    /// there is no record: the answer is an invalid response.
    pub open spec fn to_result(self, domain: Seq<char>, now: u64) -> Result<
        DnsResultView,
        DnsErrorView,
    > {
        match self.ip_address {
            Some(a) => Ok(
                DnsResultView {
                    domain,
                    ip_address: Some(a),
                    content_hash: None,
                    resolver_type: ResolverType::Genesis,
                    ttl: self.effective_ttl(),
                    timestamp: now,
                },
            ),
            None => match self.content_hash {
                Some(h) => Ok(
                    DnsResultView {
                        domain,
                        ip_address: None,
                        content_hash: Some(h),
                        resolver_type: ResolverType::IPFS,
                        ttl: self.effective_ttl(),
                        timestamp: now,
                    },
                ),
                None => Err(DnsErrorView::InvalidResponse(no_target_detail())),
            },
        }
    }
}

/// How a request to the blockchain name service ended.
#[derive(Debug, PartialEq, Eq)]
pub enum GenesisResponse {
    /// The service could not be reached; carries the transport's message.
    Unreachable(String),
    /// The service answered with a status other than success; carries the
    /// status.
    Rejected(String),
    /// The service answered with success, but the body is no domain record;
    /// carries the parser's message.
    Malformed(String),
    /// The service answered with success and this record.
    Found(GenesisDomain),
}

/// The mathematical value of a [`GenesisResponse`].
pub enum GenesisResponseView {
    Unreachable(Seq<char>),
    Rejected(Seq<char>),
    Malformed(Seq<char>),
    Found(GenesisDomainView),
}

impl View for GenesisResponse {
    type V = GenesisResponseView;

    open spec fn view(&self) -> GenesisResponseView {
        match self {
            GenesisResponse::Unreachable(c) => GenesisResponseView::Unreachable(c@),
            GenesisResponse::Rejected(c) => GenesisResponseView::Rejected(c@),
            GenesisResponse::Malformed(c) => GenesisResponseView::Malformed(c@),
            GenesisResponse::Found(d) => GenesisResponseView::Found(d@),
        }
    }
}

/// How a lookup with the conventional resolver ended.
#[derive(Debug, PartialEq, Eq)]
pub enum LookupOutcome {
    /// No conventional resolver is available in this deployment.
    Unavailable,
    /// The resolver failed; carries its message.
    Failed(String),
    /// The resolver answered with these addresses, in its order.
    Addresses(Vec<IpAddress>),
}

/// The mathematical value of a [`LookupOutcome`].
pub enum LookupOutcomeView {
    Unavailable,
    Failed(Seq<char>),
    Addresses(Seq<IpAddress>),
}

impl View for LookupOutcome {
    type V = LookupOutcomeView;

    open spec fn view(&self) -> LookupOutcomeView {
        match self {
            LookupOutcome::Unavailable => LookupOutcomeView::Unavailable,
            LookupOutcome::Failed(c) => LookupOutcomeView::Failed(c@),
            LookupOutcome::Addresses(a) => LookupOutcomeView::Addresses(a@),
        }
    }
}

/// What a resolution returns, as a mathematical value.
pub type OutcomeView = Result<DnsResultView, DnsErrorView>;

/// The mathematical value of what a resolution returns.
pub open spec fn outcome_view(r: Result<DnsResult, DnsError>) -> OutcomeView {
    match r {
        Ok(rec) => Ok(rec@),
        Err(e) => Err(e@),
    }
}

/// What the blockchain path returns for `domain` when the name service
/// answered `response` and the answer is taken at `now`.
pub open spec fn genesis_outcome(
    domain: Seq<char>,
    response: GenesisResponseView,
    now: u64,
) -> OutcomeView {
    match response {
        GenesisResponseView::Unreachable(cause) => Err(DnsErrorView::ConnectionError(cause)),
        GenesisResponseView::Rejected(status) => Err(DnsErrorView::NodeError(status)),
        GenesisResponseView::Malformed(cause) => Err(DnsErrorView::InvalidResponse(cause)),
        GenesisResponseView::Found(record) => record.to_result(domain, now),
    }
}

/// What the conventional path returns for `domain` when the resolver answered
/// `lookup` and the answer is taken at `now`: the first address, cached for
/// [`TRADITIONAL_TTL`] seconds.
pub open spec fn traditional_outcome(
    domain: Seq<char>,
    lookup: LookupOutcomeView,
    now: u64,
) -> OutcomeView {
    match lookup {
        LookupOutcomeView::Unavailable => Err(DnsErrorView::UnsupportedDomain(domain)),
        LookupOutcomeView::Failed(cause) => Err(DnsErrorView::ResolutionFailed(cause)),
        LookupOutcomeView::Addresses(found) => if found.len() == 0 {
            Err(DnsErrorView::NoResults(domain))
        } else {
            Ok(
                DnsResultView {
                    domain,
                    ip_address: Some(found[0]),
                    content_hash: None,
                    resolver_type: ResolverType::Traditional,
                    ttl: TRADITIONAL_TTL,
                    timestamp: now,
                },
            )
        },
    }
}

/// Turns a name-service record into the record that answers a query for
/// `domain` at `now`.
pub fn convert_genesis_domain_at(domain: &str, record: GenesisDomain, now: u64) -> (r: Result<
    DnsResult,
    DnsError,
>)
    ensures
        outcome_view(r) == record@.to_result(domain@, now),
{
    let ttl = match record.ttl {
        Some(t) => t,
        None => DEFAULT_GENESIS_TTL,
    };
    match record.ip_address {
        Some(a) => Ok(
            DnsResult {
                domain: String::from_str(domain),
                ip_address: Some(a),
                content_hash: None,
                resolver_type: ResolverType::Genesis,
                ttl,
                timestamp: now,
            },
        ),
        None => match record.content_hash {
            Some(h) => Ok(
                DnsResult {
                    domain: String::from_str(domain),
                    ip_address: None,
                    content_hash: Some(h),
                    resolver_type: ResolverType::IPFS,
                    ttl,
                    timestamp: now,
                },
            ),
            None => Err(
                DnsError::InvalidResponse(
                    String::from_str("record holds neither an address nor a content hash"),
                ),
            ),
        },
    }
}

/// What the blockchain path returns for `domain`, given the service's answer.
pub fn interpret_genesis_response(domain: &str, response: GenesisResponse, now: u64) -> (r: Result<
    DnsResult,
    DnsError,
>)
    ensures
        outcome_view(r) == genesis_outcome(domain@, response@, now),
{
    match response {
        GenesisResponse::Unreachable(cause) => Err(DnsError::ConnectionError(cause)),
        GenesisResponse::Rejected(status) => Err(DnsError::NodeError(status)),
        GenesisResponse::Malformed(cause) => Err(DnsError::InvalidResponse(cause)),
        GenesisResponse::Found(record) => convert_genesis_domain_at(domain, record, now),
    }
}

/// What the conventional path returns for `domain`, given the resolver's
/// answer.
pub fn interpret_lookup(domain: &str, lookup: LookupOutcome, now: u64) -> (r: Result<
    DnsResult,
    DnsError,
>)
    ensures
        outcome_view(r) == traditional_outcome(domain@, lookup@, now),
{
    match lookup {
        LookupOutcome::Unavailable => Err(DnsError::UnsupportedDomain(String::from_str(domain))),
        LookupOutcome::Failed(cause) => Err(DnsError::ResolutionFailed(cause)),
        LookupOutcome::Addresses(found) => {
            if found.len() == 0 {
                Err(DnsError::NoResults(String::from_str(domain)))
            } else {
                Ok(
                    DnsResult {
                        domain: String::from_str(domain),
                        ip_address: Some(found[0]),
                        content_hash: None,
                        resolver_type: ResolverType::Traditional,
                        ttl: TRADITIONAL_TTL,
                        timestamp: now,
                    },
                )
            }
        },
    }
}

} // verus!
