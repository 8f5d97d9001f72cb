//! What holds of every resolution, stated over the mathematical values of the
//! resolver, its cache and its records.

use vstd::prelude::*;
use crate::cache::{count_of, has_valid, valid_entries, CacheView};
use crate::error::DnsErrorView;
use crate::record::{DnsResultView, ResolverType};
use crate::resolver::{request_url, Answers, ResolveStepView, ResolverView};
use crate::service::{
    genesis_outcome, traditional_outcome, GenesisResponseView, LookupOutcomeView,
};
use crate::zone::is_genesis_name;

verus! {

/// A domain that ends in a recognised label is never handed to conventional
/// DNS, whatever the fallback flag says: the next step is a cached record or
/// a request to the name service, and what a resolution returns and stores
/// does not depend on what the conventional resolver would have answered.
pub proof fn law_recognised_label_avoids_conventional_dns(
    state: ResolverView,
    domain: Seq<char>,
    asked: u64,
    answered: u64,
    one: Answers,
    other: Answers,
)
    requires
        is_genesis_name(domain),
        one.name_service == other.name_service,
    ensures
        !(state.next_step(domain, asked) is QueryConventional),
        !(state.next_step(domain, asked) is Unsupported),
        !has_valid(state.cache, domain, asked) ==> state.next_step(domain, asked)
            == ResolveStepView::QueryNameService(request_url(state.node_url, domain)),
        state.resolution(domain, asked, answered, one) == state.resolution(
            domain,
            asked,
            answered,
            other,
        ),
{
}

/// Without a recognised label, without fallback and without a valid cached
/// record, a resolution returns `UnsupportedDomain` with the domain and
/// leaves the resolver, its cache included, exactly as it was.
pub proof fn law_unsupported_without_fallback(
    state: ResolverView,
    domain: Seq<char>,
    asked: u64,
    answered: u64,
    answers: Answers,
)
    requires
        !is_genesis_name(domain),
        !state.fallback_enabled,
        !has_valid(state.cache, domain, asked),
    ensures
        state.next_step(domain, asked) == ResolveStepView::Unsupported(
            DnsErrorView::UnsupportedDomain(domain),
        ),
        state.resolution(domain, asked, answered, answers) == (
            state,
            Err::<DnsResultView, DnsErrorView>(DnsErrorView::UnsupportedDomain(domain)),
        ),
{
}

/// A resolution that fails leaves the cache as it was, on every path.
pub proof fn law_failure_leaves_cache(
    state: ResolverView,
    domain: Seq<char>,
    asked: u64,
    answered: u64,
    answers: Answers,
)
    requires
        state.resolution(domain, asked, answered, answers).1 is Err,
    ensures
        state.resolution(domain, asked, answered, answers).0 == state,
{
}

/// A resolution that succeeds leaves its record in the cache under the domain
/// as it was supplied, and touches no other entry.
pub proof fn law_success_is_cached(
    state: ResolverView,
    domain: Seq<char>,
    asked: u64,
    answered: u64,
    answers: Answers,
)
    requires
        state.resolution(domain, asked, answered, answers).1 is Ok,
    ensures
        ({
            let (after, outcome) = state.resolution(domain, asked, answered, answers);
            &&& after.cache.contains_key(domain)
            &&& after.cache[domain] == outcome->Ok_0
            &&& after.node_url == state.node_url
            &&& after.fallback_enabled == state.fallback_enabled
            &&& forall|other: Seq<char>|
                other != domain ==> (after.cache.contains_key(other) <==> state.cache.contains_key(
                    other,
                ))
            &&& forall|other: Seq<char>|
                other != domain && state.cache.contains_key(other) ==> after.cache[other]
                    == state.cache[other]
        }),
{
}

/// Resolving a domain again while the record of the first resolution is
/// still valid returns that record once more, makes no request, and changes
/// nothing, whatever the paths would answer the second time.
pub proof fn law_repeat_within_ttl(
    state: ResolverView,
    domain: Seq<char>,
    first_asked: u64,
    first_answered: u64,
    first: Answers,
    again_asked: u64,
    again_answered: u64,
    again: Answers,
)
    requires
        state.resolution(domain, first_asked, first_answered, first).1 is Ok,
        ({
            let record = state.resolution(domain, first_asked, first_answered, first).1->Ok_0;
            again_asked <= record.timestamp + record.ttl
        }),
    ensures
        ({
            let (after, outcome) = state.resolution(domain, first_asked, first_answered, first);
            &&& after.next_step(domain, again_asked) == ResolveStepView::Cached(outcome->Ok_0)
            &&& after.resolution(domain, again_asked, again_answered, again) == (after, outcome)
        }),
{
    let (after, outcome) = state.resolution(domain, first_asked, first_answered, first);
    let record = outcome->Ok_0;
    assert(after.cache.contains_key(domain) && after.cache[domain] == record) by {
        law_success_is_cached(state, domain, first_asked, first_answered, first);
    }
    assert(!record.is_expired(again_asked));
    assert(has_valid(after.cache, domain, again_asked));
}

/// A record whose validity ended before `asked` counts as absent: with such
/// a record stored for the domain, the next step is the one that an empty
/// cache would give, and a resolution asks the path again.
pub proof fn law_expired_record_is_a_miss(
    state: ResolverView,
    domain: Seq<char>,
    record: DnsResultView,
    asked: u64,
    answered: u64,
    answers: Answers,
)
    requires
        record.timestamp + record.ttl < asked,
    ensures
        ({
            let stale = state.stored(domain, Ok(record));
            let fresh = ResolverView { cache: CacheView::empty(), ..state };
            &&& !(stale.next_step(domain, asked) is Cached)
            &&& stale.next_step(domain, asked) == fresh.next_step(domain, asked)
            &&& stale.resolution(domain, asked, answered, answers).1 == fresh.resolution(
                domain,
                asked,
                answered,
                answers,
            ).1
        }),
{
    let stale = state.stored(domain, Ok(record));
    assert(stale.cache[domain] == record);
    assert(record.is_expired(asked));
    assert(!has_valid(stale.cache, domain, asked));
}

/// A record is valid from its creation up to and including
/// `timestamp + ttl`, and expired from the next second on.
pub proof fn law_validity_ends_after_ttl(record: DnsResultView, now: u64)
    ensures
        now <= record.timestamp + record.ttl ==> !record.is_expired(now),
        now == record.timestamp + record.ttl ==> !record.is_expired(now),
        now > record.timestamp + record.ttl ==> record.is_expired(now),
{
}

/// Sweeping removes exactly the expired entries. An entry stays, with its
/// record unchanged, if and only if `now <= timestamp + ttl`, so one whose
/// validity ends at `now` stays; nothing is added.
pub proof fn law_sweep_removes_only_expired(cache: CacheView, domain: Seq<char>, now: u64)
    ensures
        valid_entries(cache, now).contains_key(domain) <==> cache.contains_key(domain) && now
            <= cache[domain].timestamp + cache[domain].ttl,
        valid_entries(cache, now).contains_key(domain) ==> valid_entries(cache, now)[domain]
            == cache[domain],
        cache.contains_key(domain) && now == cache[domain].timestamp + cache[domain].ttl
            ==> valid_entries(cache, now).contains_key(domain),
{
}

/// Sweeping twice at the same time is the same as sweeping once.
pub proof fn law_sweep_is_idempotent(cache: CacheView, now: u64)
    ensures
        valid_entries(valid_entries(cache, now), now) == valid_entries(cache, now),
{
    assert(valid_entries(valid_entries(cache, now), now) =~= valid_entries(cache, now));
}

/// After a sweep at `now`, no cached record is expired at `now`, so every
/// domain that is still cached is answered from the cache.
pub proof fn law_swept_cache_holds_only_valid(state: ResolverView, domain: Seq<char>, now: u64)
    requires
        state.swept(now).cache.contains_key(domain),
    ensures
        state.swept(now).next_step(domain, now) == ResolveStepView::Cached(state.cache[domain]),
{
}

/// Every record that a path produces holds exactly one of an address and a
/// content hash, carries the domain that was asked for, and is stamped with
/// the time at which the answer was taken.
pub proof fn law_paths_yield_one_target(
    domain: Seq<char>,
    response: GenesisResponseView,
    lookup: LookupOutcomeView,
    now: u64,
)
    ensures
        genesis_outcome(domain, response, now) matches Ok(r) ==> {
            &&& r.has_one_target()
            &&& r.domain == domain
            &&& r.timestamp == now
            &&& r.resolver_type == (if r.ip_address is Some {
                ResolverType::Genesis
            } else {
                ResolverType::IPFS
            })
        },
        traditional_outcome(domain, lookup, now) matches Ok(r) ==> {
            &&& r.has_one_target()
            &&& r.ip_address is Some
            &&& r.domain == domain
            &&& r.timestamp == now
            &&& r.resolver_type == ResolverType::Traditional
        },
{
}

/// The counts of a cache that holds one record of the name service and one
/// of conventional DNS, under two different domains, and nothing else.
pub proof fn law_counts_of_two(
    first: Seq<char>,
    genesis: DnsResultView,
    second: Seq<char>,
    traditional: DnsResultView,
)
    requires
        first != second,
        genesis.resolver_type == ResolverType::Genesis,
        traditional.resolver_type == ResolverType::Traditional,
    ensures
        ({
            let cache = CacheView::empty().insert(first, genesis).insert(second, traditional);
            &&& cache.dom().len() == 2
            &&& count_of(cache, ResolverType::Genesis) == 1
            &&& count_of(cache, ResolverType::Traditional) == 1
        }),
{
    let none = CacheView::empty();
    let one = none.insert(first, genesis);
    crate::cache::lemma_count_none(none, ResolverType::Genesis);
    crate::cache::lemma_count_none(none, ResolverType::Traditional);
    crate::cache::lemma_count_insert(none, first, genesis, ResolverType::Genesis);
    crate::cache::lemma_count_insert(none, first, genesis, ResolverType::Traditional);
    assert(one.dom() =~= Set::<Seq<char>>::empty().insert(first));
    crate::cache::lemma_count_insert(one, second, traditional, ResolverType::Genesis);
    crate::cache::lemma_count_insert(one, second, traditional, ResolverType::Traditional);
    assert(one.insert(second, traditional).dom() =~= Set::<Seq<char>>::empty().insert(
        first,
    ).insert(second));
}

} // verus!
