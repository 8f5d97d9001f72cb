//! The resolver: which path answers for a domain, what is cached, and when a
//! cached record is still good.
//!
//! A resolution alternates between decisions, which are made here, and
//! network requests, which are made by the caller. It runs in two steps:
//!
//! 1. [`GenesisDnsResolver::begin_resolve`] looks in the cache and, on a miss,
//!    picks the path. It returns a [`ResolveStep`]: the cached record, the
//!    request to make, or the refusal. It only reads the resolver.
//! 2. The caller makes the request and hands what came back to
//!    [`GenesisDnsResolver::complete_genesis`] or
//!    [`GenesisDnsResolver::complete_traditional`], which builds the record,
//!    stores it under the domain and returns it. A failure is returned and
//!    leaves the cache as it was.
//!
//! A caller that shares the resolver behind a lock needs it for reading in the
//! first step, not at all while the request is under way, and for writing in
//! the second. [`GenesisDnsResolver::resolve`] runs both steps in one call for
//! callers that can wait, with the requests made by two functions that are
//! passed in.
//!
//! Each function that reads the clock has a twin whose name ends in `_at` and
//! which takes the time as an argument; the twin's contract is exact.
//! [`ResolverView::resolution`] is the model of one whole resolution, and the
//! module `laws` states what holds of it.

use vstd::prelude::*;
use crate::cache::{has_valid, valid_entries, count_of, CacheView, DnsCache};
use crate::clock::unix_now;
use crate::error::{DnsError, DnsErrorView};
use crate::record::{CacheStats, DnsResult, DnsResultView, ResolverType};
use crate::service::{
    convert_genesis_domain_at, genesis_outcome, interpret_genesis_response, interpret_lookup,
    outcome_view, traditional_outcome, GenesisDomain, GenesisResponse, GenesisResponseView,
    LookupOutcome, LookupOutcomeView, OutcomeView,
};
use crate::zone::{is_genesis_domain, is_genesis_name};

verus! {

/// The address to request from the name service at `node_url` for `domain`.
pub open spec fn request_url(node_url: Seq<char>, domain: Seq<char>) -> Seq<char> {
    node_url + "/api/dns/resolve/"@ + domain
}

/// What to do next for a domain that is being resolved.
#[derive(Debug, PartialEq, Eq)]
pub enum ResolveStep {
    /// The cache holds a record that is still valid: this is the answer, and
    /// no request is to be made.
    Cached(DnsResult),
    /// Ask the blockchain name service with a GET request to this address,
    /// then call `complete_genesis`.
    QueryNameService(String),
    /// Ask the conventional resolver for the domain, then call
    /// `complete_traditional`.
    QueryConventional,
    /// No path answers for the domain: this error is the answer.
    Unsupported(DnsError),
}

/// The mathematical value of a [`ResolveStep`].
pub enum ResolveStepView {
    Cached(DnsResultView),
    QueryNameService(Seq<char>),
    QueryConventional,
    Unsupported(DnsErrorView),
}

impl View for ResolveStep {
    type V = ResolveStepView;

    open spec fn view(&self) -> ResolveStepView {
        match self {
            ResolveStep::Cached(r) => ResolveStepView::Cached(r@),
            ResolveStep::QueryNameService(url) => ResolveStepView::QueryNameService(url@),
            ResolveStep::QueryConventional => ResolveStepView::QueryConventional,
            ResolveStep::Unsupported(e) => ResolveStepView::Unsupported(e@),
        }
    }
}

/// What the two paths would answer if they were asked.
pub struct Answers {
    /// The answer of the blockchain name service.
    pub name_service: GenesisResponseView,
    /// The answer of the conventional resolver.
    pub conventional: LookupOutcomeView,
}

/// The mathematical value of a [`GenesisDnsResolver`].
pub struct ResolverView {
    /// Where the blockchain name service is reached.
    pub node_url: Seq<char>,
    /// Whether conventional DNS answers for the domains that the name service
    /// does not.
    pub fallback_enabled: bool,
    /// The cached records.
    pub cache: CacheView,
}

impl ResolverView {
    /// The next step for `domain` at `now`. A valid cached record comes
    /// before everything else; then a recognised label selects the name
    /// service, whatever the fallback flag says; then the flag selects
    /// conventional DNS; else the domain is unsupported.
    pub open spec fn next_step(self, domain: Seq<char>, now: u64) -> ResolveStepView {
        if has_valid(self.cache, domain, now) {
            ResolveStepView::Cached(self.cache[domain])
        } else if is_genesis_name(domain) {
            ResolveStepView::QueryNameService(request_url(self.node_url, domain))
        } else if self.fallback_enabled {
            ResolveStepView::QueryConventional
        } else {
            ResolveStepView::Unsupported(DnsErrorView::UnsupportedDomain(domain))
        }
    }

    /// The resolver after `outcome` was returned for `domain`: a record is
    /// stored under the domain, in place of what was there; an error changes
    /// nothing.
    pub open spec fn stored(self, domain: Seq<char>, outcome: OutcomeView) -> ResolverView {
        match outcome {
            Ok(record) => ResolverView { cache: self.cache.insert(domain, record), ..self },
            Err(_) => self,
        }
    }

    /// The resolver after its cache was swept at `now`.
    pub open spec fn swept(self, now: u64) -> ResolverView {
        ResolverView { cache: valid_entries(self.cache, now), ..self }
    }

    /// One whole resolution of `domain`: the resolver afterwards, and what is
    /// returned. The cache is consulted at `asked`; a request that is made is
    /// answered at `answered`, with what `answers` holds for the path taken.
    pub open spec fn resolution(
        self,
        domain: Seq<char>,
        asked: u64,
        answered: u64,
        answers: Answers,
    ) -> (ResolverView, OutcomeView) {
        match self.next_step(domain, asked) {
            ResolveStepView::Cached(record) => (self, Ok(record)),
            ResolveStepView::QueryNameService(_) => {
                let outcome = genesis_outcome(domain, answers.name_service, answered);
                (self.stored(domain, outcome), outcome)
            },
            ResolveStepView::QueryConventional => {
                let outcome = traditional_outcome(domain, answers.conventional, answered);
                (self.stored(domain, outcome), outcome)
            },
            ResolveStepView::Unsupported(e) => (self, Err(e)),
        }
    }
}

/// Whether `answers` holds, for the path that `step` takes, an answer that the
/// function asked on that path may give: `name_service` when it is handed the
/// request address, `conventional` when it is handed the domain. A step that
/// takes no path asks nothing.
pub open spec fn answered_by<F, G>(
    step: ResolveStepView,
    domain: Seq<char>,
    answers: Answers,
    name_service: F,
    conventional: G,
) -> bool where F: FnOnce(String) -> GenesisResponse, G: FnOnce(String) -> LookupOutcome {
    match step {
        ResolveStepView::QueryNameService(url) => exists|asked: String, response: GenesisResponse|
            asked@ == url && #[trigger] call_ensures(name_service, (asked,), response)
                && response@ == answers.name_service,
        ResolveStepView::QueryConventional => exists|asked: String, lookup: LookupOutcome|
            asked@ == domain && #[trigger] call_ensures(conventional, (asked,), lookup) && lookup@
                == answers.conventional,
        _ => true,
    }
}

/// Resolves domains through the blockchain name service or through
/// conventional DNS, and caches what it finds until it expires.
pub struct GenesisDnsResolver {
    genesis_node_url: String,
    cache: DnsCache,
    fallback_enabled: bool,
}

impl View for GenesisDnsResolver {
    type V = ResolverView;

    closed spec fn view(&self) -> ResolverView {
        ResolverView {
            node_url: self.genesis_node_url@,
            fallback_enabled: self.fallback_enabled,
            cache: self.cache@,
        }
    }
}

impl GenesisDnsResolver {
    /// A resolver for the name service at `genesis_node_url`, with an empty
    /// cache.
    pub fn new(genesis_node_url: String, fallback_enabled: bool) -> (r: Self)
        ensures
            r@.node_url == genesis_node_url@,
            r@.fallback_enabled == fallback_enabled,
            r@.cache == CacheView::empty(),
    {
        GenesisDnsResolver { genesis_node_url, cache: DnsCache::new(), fallback_enabled }
    }

    /// Prepares the resolver for use. There is nothing to prepare: this
    /// always succeeds and changes nothing.
    pub fn initialize(&mut self) -> (r: Result<(), DnsError>)
        ensures
            r is Ok,
            final(self)@ == old(self)@,
    {
        Ok(())
    }

    /// Where the blockchain name service is reached.
    pub fn genesis_node_url(&self) -> (url: &String)
        ensures
            url@ == self@.node_url,
    {
        &self.genesis_node_url
    }

    /// Whether conventional DNS answers for domains without a recognised
    /// label.
    pub fn fallback_enabled(&self) -> (b: bool)
        ensures
            b == self@.fallback_enabled,
    {
        self.fallback_enabled
    }

    /// Whether `domain` ends in a label of the blockchain name service.
    pub fn is_genesis_domain(&self, domain: &str) -> (b: bool)
        ensures
            b == is_genesis_name(domain@),
    {
        is_genesis_domain(domain)
    }

    /// The address to request from the name service for `domain`.
    pub fn genesis_request_url(&self, domain: &str) -> (url: String)
        ensures
            url@ == request_url(self@.node_url, domain@),
    {
        let mut url = self.genesis_node_url.clone();
        url.append("/api/dns/resolve/");
        url.append(domain);
        url
    }

    /// The record cached for `domain`, whether it has expired or not.
    pub fn cached(&self, domain: &str) -> (r: Option<&DnsResult>)
        ensures
            match r {
                Some(record) => self@.cache.contains_key(domain@) && record@
                    == self@.cache[domain@],
                None => !self@.cache.contains_key(domain@),
            },
    {
        self.cache.get(domain)
    }

    /// Stores `record` for `domain`, in place of what was cached for it.
    pub fn cache_result(&mut self, domain: &str, record: DnsResult)
        ensures
            final(self)@ == old(self)@.stored(domain@, Ok(record@)),
    {
        self.cache.insert(domain, record);
    }

    /// The first step of resolving `domain` at `now`.
    pub fn begin_resolve_at(&self, domain: &str, now: u64) -> (step: ResolveStep)
        ensures
            step@ == self@.next_step(domain@, now),
    {
        match self.cache.get(domain) {
            Some(record) => {
                if !record.is_expired_at(now) {
                    return ResolveStep::Cached(record.clone());
                }
            },
            None => {},
        }
        if is_genesis_domain(domain) {
            ResolveStep::QueryNameService(self.genesis_request_url(domain))
        } else if self.fallback_enabled {
            ResolveStep::QueryConventional
        } else {
            ResolveStep::Unsupported(DnsError::UnsupportedDomain(String::from_str(domain)))
        }
    }

    /// The first step of resolving `domain` now.
    pub fn begin_resolve(&self, domain: &str) -> (step: ResolveStep)
        ensures
            exists|now: u64| step@ == #[trigger] self@.next_step(domain@, now),
    {
        let now = unix_now();
        let step = self.begin_resolve_at(domain, now);
        assert(step@ == self@.next_step(domain@, now));
        step
    }

    /// The last step of resolving `domain` through the name service, which
    /// answered `response` at `now`.
    pub fn complete_genesis_at(&mut self, domain: &str, response: GenesisResponse, now: u64) -> (r:
        Result<DnsResult, DnsError>)
        ensures
            outcome_view(r) == genesis_outcome(domain@, response@, now),
            final(self)@ == old(self)@.stored(domain@, outcome_view(r)),
    {
        let outcome = interpret_genesis_response(domain, response, now);
        self.finish(domain, outcome)
    }

    /// The last step of resolving `domain` through the name service, which
    /// answered `response` just now.
    pub fn complete_genesis(&mut self, domain: &str, response: GenesisResponse) -> (r: Result<
        DnsResult,
        DnsError,
    >)
        ensures
            exists|now: u64| outcome_view(r) == #[trigger] genesis_outcome(domain@, response@, now),
            final(self)@ == old(self)@.stored(domain@, outcome_view(r)),
    {
        let now = unix_now();
        let r = self.complete_genesis_at(domain, response, now);
        assert(outcome_view(r) == genesis_outcome(domain@, response@, now));
        r
    }

    /// The last step of resolving `domain` through conventional DNS, which
    /// answered `lookup` at `now`.
    pub fn complete_traditional_at(&mut self, domain: &str, lookup: LookupOutcome, now: u64) -> (r:
        Result<DnsResult, DnsError>)
        ensures
            outcome_view(r) == traditional_outcome(domain@, lookup@, now),
            final(self)@ == old(self)@.stored(domain@, outcome_view(r)),
    {
        let outcome = interpret_lookup(domain, lookup, now);
        self.finish(domain, outcome)
    }

    /// The last step of resolving `domain` through conventional DNS, which
    /// answered `lookup` just now.
    pub fn complete_traditional(&mut self, domain: &str, lookup: LookupOutcome) -> (r: Result<
        DnsResult,
        DnsError,
    >)
        ensures
            exists|now: u64|
                outcome_view(r) == #[trigger] traditional_outcome(domain@, lookup@, now),
            final(self)@ == old(self)@.stored(domain@, outcome_view(r)),
    {
        let now = unix_now();
        let r = self.complete_traditional_at(domain, lookup, now);
        assert(outcome_view(r) == traditional_outcome(domain@, lookup@, now));
        r
    }

    /// Resolves `domain` in one call, for callers that can wait for the
    /// network: `name_service` is handed the address to request and returns
    /// how the request ended, `conventional` is handed the domain and returns
    /// how the lookup ended. At most one of the two is called, and neither
    /// when the cache answers or the domain is unsupported. The clock is read
    /// before the cache is consulted and again when an answer has come.
    pub fn resolve<F, G>(&mut self, domain: &str, name_service: F, conventional: G) -> (r: Result<
        DnsResult,
        DnsError,
    >) where F: FnOnce(String) -> GenesisResponse, G: FnOnce(String) -> LookupOutcome
        requires
            forall|url: String| call_requires(name_service, (url,)),
            forall|name: String| call_requires(conventional, (name,)),
        ensures
            exists|asked: u64, answered: u64, answers: Answers|
                {
                    &&& #[trigger] old(self)@.resolution(domain@, asked, answered, answers) == (
                        final(self)@,
                        outcome_view(r),
                    )
                    &&& answered_by(
                        old(self)@.next_step(domain@, asked),
                        domain@,
                        answers,
                        name_service,
                        conventional,
                    )
                },
    {
        let asked = unix_now();
        match self.begin_resolve_at(domain, asked) {
            ResolveStep::Cached(record) => {
                proof {
                    let answers = Answers {
                        name_service: GenesisResponseView::Unreachable(Seq::empty()),
                        conventional: LookupOutcomeView::Unavailable,
                    };
                    assert(old(self)@.resolution(domain@, asked, asked, answers) == (
                        self@,
                        Ok::<DnsResultView, DnsErrorView>(record@),
                    ));
                }
                Ok(record)
            },
            ResolveStep::Unsupported(e) => {
                proof {
                    let answers = Answers {
                        name_service: GenesisResponseView::Unreachable(Seq::empty()),
                        conventional: LookupOutcomeView::Unavailable,
                    };
                    assert(old(self)@.resolution(domain@, asked, asked, answers) == (
                        self@,
                        Err::<DnsResultView, DnsErrorView>(e@),
                    ));
                }
                Err(e)
            },
            ResolveStep::QueryNameService(url) => {
                let ghost sent = url;
                let response = name_service(url);
                let ghost got = response;
                let answered = unix_now();
                let r = self.complete_genesis_at(domain, response, answered);
                proof {
                    let answers = Answers {
                        name_service: got@,
                        conventional: LookupOutcomeView::Unavailable,
                    };
                    assert(call_ensures(name_service, (sent,), got));
                    assert(old(self)@.resolution(domain@, asked, answered, answers) == (
                        self@,
                        outcome_view(r),
                    ));
                }
                r
            },
            ResolveStep::QueryConventional => {
                let name = String::from_str(domain);
                let ghost sent = name;
                let lookup = conventional(name);
                let ghost got = lookup;
                let answered = unix_now();
                let r = self.complete_traditional_at(domain, lookup, answered);
                proof {
                    let answers = Answers {
                        name_service: GenesisResponseView::Unreachable(Seq::empty()),
                        conventional: got@,
                    };
                    assert(call_ensures(conventional, (sent,), got));
                    assert(old(self)@.resolution(domain@, asked, answered, answers) == (
                        self@,
                        outcome_view(r),
                    ));
                }
                r
            },
        }
    }

    /// Caches a record that a path returned and hands the outcome on.
    fn finish(&mut self, domain: &str, outcome: Result<DnsResult, DnsError>) -> (r: Result<
        DnsResult,
        DnsError,
    >)
        ensures
            outcome_view(r) == outcome_view(outcome),
            final(self)@ == old(self)@.stored(domain@, outcome_view(outcome)),
    {
        match outcome {
            Ok(record) => {
                self.cache.insert(domain, record.clone());
                Ok(record)
            },
            Err(e) => Err(e),
        }
    }

    /// Turns a name-service record into the record that answers a query for
    /// `domain`, made now.
    pub fn convert_genesis_domain(&self, domain: &str, record: GenesisDomain) -> (r: Result<
        DnsResult,
        DnsError,
    >)
        ensures
            exists|now: u64| outcome_view(r) == #[trigger] record@.to_result(domain@, now),
    {
        let now = unix_now();
        let r = convert_genesis_domain_at(domain, record, now);
        assert(outcome_view(r) == record@.to_result(domain@, now));
        r
    }

    /// Whether `result` is expired now.
    pub fn is_cache_expired(&self, result: &DnsResult) -> (b: bool)
        ensures
            exists|now: u64| b == #[trigger] result@.is_expired(now),
    {
        let now = unix_now();
        let b = result.is_expired_at(now);
        assert(b == result@.is_expired(now));
        b
    }

    /// Removes every entry that is expired at `now`. An entry whose validity
    /// ends exactly at `now` stays.
    pub fn cleanup_cache_at(&mut self, now: u64)
        ensures
            final(self)@ == old(self)@.swept(now),
    {
        self.cache.remove_expired(now);
    }

    /// Removes every entry that is expired now.
    pub fn cleanup_cache(&mut self)
        ensures
            exists|now: u64| final(self)@ == #[trigger] old(self)@.swept(now),
    {
        let now = unix_now();
        self.cleanup_cache_at(now);
        assert(self@ == old(self)@.swept(now));
    }

    /// The number of cached entries, and how many of them the name service
    /// produced with an address and how many conventional DNS produced.
    pub fn cache_stats(&self) -> (s: CacheStats)
        ensures
            self@.cache.dom().finite(),
            s.total_entries == self@.cache.dom().len(),
            s.genesis_domains == count_of(self@.cache, ResolverType::Genesis),
            s.traditional_domains == count_of(self@.cache, ResolverType::Traditional),
    {
        self.cache.stats()
    }
}

} // verus!
