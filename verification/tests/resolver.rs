use genesis_browser::address::IpAddress;
use genesis_browser::error::DnsError;
use genesis_browser::record::{CacheStats, DisplayForm, DnsResult, ResolverType};
use genesis_browser::resolver::{GenesisDnsResolver, ResolveStep};
use genesis_browser::service::{
    convert_genesis_domain_at, interpret_genesis_response, interpret_lookup, GenesisDomain,
    GenesisResponse, LookupOutcome, DEFAULT_GENESIS_TTL, TRADITIONAL_TTL,
};
use genesis_browser::zone::is_genesis_domain;

fn resolver(fallback: bool) -> GenesisDnsResolver {
    GenesisDnsResolver::new("http://localhost:3000".to_string(), fallback)
}

fn host_record(domain: &str, kind: ResolverType, ttl: u64, timestamp: u64) -> DnsResult {
    DnsResult {
        domain: domain.to_string(),
        ip_address: Some(IpAddress::V4(192, 168, 1, 100)),
        content_hash: None,
        resolver_type: kind,
        ttl,
        timestamp,
    }
}

fn service_record(ip: Option<IpAddress>, hash: Option<&str>, ttl: Option<u64>) -> GenesisDomain {
    GenesisDomain {
        name: "test.genesis".to_string(),
        owner: "x".to_string(),
        resolver: "y".to_string(),
        content_hash: hash.map(|h| h.to_string()),
        ip_address: ip,
        ttl,
    }
}

#[test]
fn test_is_genesis_domain() {
    let resolver = GenesisDnsResolver::new("http://localhost:3000".to_string(), true);

    assert!(resolver.is_genesis_domain("test.genesis"));
    assert!(resolver.is_genesis_domain("freedom.free"));
    assert!(resolver.is_genesis_domain("mysite.web"));
    assert!(resolver.is_genesis_domain("token.defi"));
    assert!(!resolver.is_genesis_domain("google.com"));
    assert!(!resolver.is_genesis_domain("example.org"));
}

#[test]
fn test_cache_functionality() {
    let mut resolver = GenesisDnsResolver::new("http://localhost:3000".to_string(), true);

    let result = DnsResult {
        domain: "test.genesis".to_string(),
        ip_address: Some(IpAddress::V4(192, 168, 1, 100)),
        content_hash: None,
        resolver_type: ResolverType::Genesis,
        ttl: 3600,
        timestamp: chrono::Utc::now().timestamp() as u64,
    };

    resolver.cache_result("test.genesis", result.clone());

    let stats = resolver.cache_stats();
    assert_eq!(stats.total_entries, 1);
    assert_eq!(stats.genesis_domains, 1);
}

#[test]
fn test_genesis_domain_detection() {
    assert!(is_genesis_domain("test.genesis"));
    assert!(is_genesis_domain("freedom.free"));
    assert!(!is_genesis_domain("google.com"));
}

#[test]
fn every_label_is_recognised() {
    for name in ["a.genesis", "a.free", "a.web", "a.defi", "a.dao"] {
        assert!(is_genesis_domain(name), "{}", name);
    }
    for label in [".genesis", ".free", ".web", ".defi", ".dao"] {
        assert!(is_genesis_domain(label), "{}", label);
    }
}

#[test]
fn label_match_is_a_literal_suffix_test() {
    assert!(!is_genesis_domain(""));
    assert!(!is_genesis_domain("genesis"));
    assert!(!is_genesis_domain("test.genesis."));
    assert!(!is_genesis_domain("test.genesis.com"));
    assert!(!is_genesis_domain("test.GENESIS"));
    assert!(!is_genesis_domain("test.Dao"));
    assert!(!is_genesis_domain("test.webs"));
    assert!(!is_genesis_domain("dao"));
    assert!(is_genesis_domain("übung.dao"));
    assert!(is_genesis_domain("日本語.web"));
    assert!(!is_genesis_domain("test.dao日"));
    assert!(is_genesis_domain("http://welcome.genesis"));
}

#[test]
fn new_resolver_is_empty_and_keeps_its_settings() {
    let mut r = resolver(false);
    assert_eq!(r.genesis_node_url(), "http://localhost:3000");
    assert!(!r.fallback_enabled());
    assert!(resolver(true).fallback_enabled());
    assert_eq!(
        r.cache_stats(),
        CacheStats { total_entries: 0, genesis_domains: 0, traditional_domains: 0 }
    );
    assert_eq!(r.initialize(), Ok(()));
    assert_eq!(r.cache_stats().total_entries, 0);
    assert!(r.cached("test.genesis").is_none());
}

#[test]
fn request_url_joins_node_path_and_domain() {
    let r = resolver(true);
    assert_eq!(
        r.genesis_request_url("test.genesis"),
        "http://localhost:3000/api/dns/resolve/test.genesis"
    );
    let other = GenesisDnsResolver::new("https://node.example".to_string(), true);
    assert_eq!(other.genesis_request_url(""), "https://node.example/api/dns/resolve/");
}

#[test]
fn recognised_label_goes_to_name_service_whatever_the_flag() {
    for fallback in [true, false] {
        let r = resolver(fallback);
        for name in ["test.genesis", "freedom.free", "mysite.web", "token.defi", "gov.dao"] {
            let step = r.begin_resolve_at(name, 1_000);
            assert_eq!(
                step,
                ResolveStep::QueryNameService(format!(
                    "http://localhost:3000/api/dns/resolve/{}",
                    name
                ))
            );
            assert!(!matches!(r.begin_resolve(name), ResolveStep::QueryConventional));
        }
    }
}

#[test]
fn other_domain_with_fallback_goes_to_conventional_dns() {
    let r = resolver(true);
    assert_eq!(r.begin_resolve_at("example.com", 5), ResolveStep::QueryConventional);
    assert_eq!(r.begin_resolve("example.com"), ResolveStep::QueryConventional);
}

#[test]
fn other_domain_without_fallback_is_unsupported_and_cache_untouched() {
    let mut r = resolver(false);
    r.cache_result("kept.genesis", host_record("kept.genesis", ResolverType::Genesis, 10, 100));
    let before = r.cache_stats();
    for name in ["example.com", "google.com", "", "test.genesis.org"] {
        assert_eq!(
            r.begin_resolve_at(name, 100),
            ResolveStep::Unsupported(DnsError::UnsupportedDomain(name.to_string()))
        );
        assert_eq!(
            r.begin_resolve(name),
            ResolveStep::Unsupported(DnsError::UnsupportedDomain(name.to_string()))
        );
    }
    assert_eq!(r.cache_stats(), before);
    assert!(r.cached("example.com").is_none());
    assert!(r.cached("kept.genesis").is_some());
}

#[test]
fn second_resolution_within_ttl_is_answered_from_cache() {
    let mut r = resolver(true);
    let first = r
        .complete_genesis_at(
            "test.genesis",
            GenesisResponse::Found(service_record(
                Some(IpAddress::V4(192, 168, 1, 100)),
                None,
                Some(60),
            )),
            1_000,
        )
        .unwrap();
    assert_eq!(first.timestamp, 1_000);
    assert_eq!(first.ttl, 60);
    for at in [1_000, 1_001, 1_059, 1_060] {
        assert_eq!(r.begin_resolve_at("test.genesis", at), ResolveStep::Cached(first.clone()));
    }
    assert_eq!(r.cache_stats().total_entries, 1);
    assert!(matches!(
        r.begin_resolve_at("test.genesis", 1_061),
        ResolveStep::QueryNameService(_)
    ));
}

#[test]
fn cached_record_is_served_before_any_strategy_is_chosen() {
    let mut r = resolver(false);
    let rec = host_record("example.com", ResolverType::Traditional, 300, 50);
    r.cache_result("example.com", rec.clone());
    assert_eq!(r.begin_resolve_at("example.com", 350), ResolveStep::Cached(rec));
    assert_eq!(
        r.begin_resolve_at("example.com", 351),
        ResolveStep::Unsupported(DnsError::UnsupportedDomain("example.com".to_string()))
    );
}

#[test]
fn expired_record_inserted_directly_is_a_miss() {
    let now: u64 = 10_000;
    let ttl: u64 = 3600;
    let mut r = resolver(true);
    r.cache_result(
        "test.genesis",
        host_record("test.genesis", ResolverType::Genesis, ttl, now - ttl - 1),
    );
    r.cache_result(
        "example.com",
        host_record("example.com", ResolverType::Traditional, ttl, now - ttl - 1),
    );
    assert_eq!(
        r.begin_resolve_at("test.genesis", now),
        ResolveStep::QueryNameService(
            "http://localhost:3000/api/dns/resolve/test.genesis".to_string()
        )
    );
    assert_eq!(r.begin_resolve_at("example.com", now), ResolveStep::QueryConventional);
    // one second earlier both are still valid
    assert!(matches!(r.begin_resolve_at("test.genesis", now - 1), ResolveStep::Cached(_)));
    assert!(matches!(r.begin_resolve_at("example.com", now - 1), ResolveStep::Cached(_)));
}

#[test]
fn fresh_resolution_replaces_an_expired_record() {
    let mut r = resolver(true);
    r.cache_result("test.genesis", host_record("test.genesis", ResolverType::Genesis, 10, 0));
    let fresh = r
        .complete_genesis_at(
            "test.genesis",
            GenesisResponse::Found(service_record(None, Some("Qm123"), None)),
            500,
        )
        .unwrap();
    assert_eq!(r.cached("test.genesis"), Some(&fresh));
    assert_eq!(fresh.resolver_type, ResolverType::IPFS);
    assert_eq!(
        r.cache_stats(),
        CacheStats { total_entries: 1, genesis_domains: 0, traditional_domains: 0 }
    );
}

#[test]
fn expiry_boundary_is_inclusive_of_validity() {
    let rec = host_record("a.genesis", ResolverType::Genesis, 100, 1_000);
    assert!(!rec.is_expired_at(0));
    assert!(!rec.is_expired_at(1_000));
    assert!(!rec.is_expired_at(1_099));
    assert!(!rec.is_expired_at(1_100));
    assert!(rec.is_expired_at(1_101));
    assert!(rec.is_expired_at(u64::MAX));
    let zero = host_record("a.genesis", ResolverType::Genesis, 0, 7);
    assert!(!zero.is_expired_at(7));
    assert!(zero.is_expired_at(8));
}

#[test]
fn expiry_sum_does_not_wrap() {
    let rec = host_record("a.genesis", ResolverType::Genesis, u64::MAX, 5);
    assert!(!rec.is_expired_at(0));
    assert!(!rec.is_expired_at(4));
    assert!(!rec.is_expired_at(u64::MAX));
    let late = host_record("a.genesis", ResolverType::Genesis, 1, u64::MAX);
    assert!(!late.is_expired_at(u64::MAX));
    let edge = host_record("a.genesis", ResolverType::Genesis, 5, u64::MAX - 5);
    assert!(!edge.is_expired_at(u64::MAX));
}

#[test]
fn cleanup_removes_only_expired_entries() {
    let mut r = resolver(true);
    r.cache_result("old.genesis", host_record("old.genesis", ResolverType::Genesis, 10, 100));
    r.cache_result("edge.genesis", host_record("edge.genesis", ResolverType::Genesis, 10, 190));
    r.cache_result("new.com", host_record("new.com", ResolverType::Traditional, 300, 150));
    r.cleanup_cache_at(200);
    assert!(r.cached("old.genesis").is_none());
    assert_eq!(
        r.cached("edge.genesis"),
        Some(&host_record("edge.genesis", ResolverType::Genesis, 10, 190))
    );
    assert_eq!(
        r.cached("new.com"),
        Some(&host_record("new.com", ResolverType::Traditional, 300, 150))
    );
    assert_eq!(
        r.cache_stats(),
        CacheStats { total_entries: 2, genesis_domains: 1, traditional_domains: 1 }
    );
    r.cleanup_cache_at(201);
    assert!(r.cached("edge.genesis").is_none());
    assert_eq!(r.cache_stats().total_entries, 1);
    r.cleanup_cache_at(201);
    assert_eq!(r.cache_stats().total_entries, 1);
}

#[test]
fn cleanup_of_many_entries_keeps_exactly_the_valid_ones() {
    let mut r = resolver(true);
    for i in 0..50u64 {
        let name = format!("n{}.genesis", i);
        r.cache_result(&name, host_record(&name, ResolverType::Genesis, i, 100));
    }
    r.cleanup_cache_at(125);
    for i in 0..50u64 {
        let name = format!("n{}.genesis", i);
        assert_eq!(r.cached(&name).is_some(), i >= 25, "{}", name);
    }
    assert_eq!(r.cache_stats().total_entries, 25);
}

#[test]
fn cleanup_on_empty_cache_is_harmless() {
    let mut r = resolver(true);
    r.cleanup_cache_at(0);
    r.cleanup_cache_at(u64::MAX);
    r.cleanup_cache();
    assert_eq!(r.cache_stats().total_entries, 0);
}

#[test]
fn cleanup_with_the_clock_keeps_fresh_and_drops_ancient() {
    let mut r = resolver(true);
    let now = chrono::Utc::now().timestamp() as u64;
    r.cache_result("fresh.genesis", host_record("fresh.genesis", ResolverType::Genesis, 3600, now));
    r.cache_result("ancient.genesis", host_record("ancient.genesis", ResolverType::Genesis, 1, 1));
    r.cleanup_cache();
    assert!(r.cached("fresh.genesis").is_some());
    assert!(r.cached("ancient.genesis").is_none());
}

#[test]
fn is_cache_expired_reads_the_clock() {
    let r = resolver(true);
    let now = chrono::Utc::now().timestamp() as u64;
    assert!(!r.is_cache_expired(&host_record("a.genesis", ResolverType::Genesis, 3600, now)));
    assert!(r.is_cache_expired(&host_record("a.genesis", ResolverType::Genesis, 60, 1_000)));
}

#[test]
fn stats_count_one_of_each_strategy() {
    let mut r = resolver(true);
    r.cache_result("test.genesis", host_record("test.genesis", ResolverType::Genesis, 60, 1));
    r.cache_result("example.com", host_record("example.com", ResolverType::Traditional, 60, 1));
    assert_eq!(
        r.cache_stats(),
        CacheStats { total_entries: 2, genesis_domains: 1, traditional_domains: 1 }
    );
}

#[test]
fn stats_leave_other_strategies_out_of_the_breakdown() {
    let mut r = resolver(true);
    r.cache_result("a.genesis", host_record("a.genesis", ResolverType::Genesis, 60, 1));
    r.cache_result("b.genesis", host_record("b.genesis", ResolverType::IPFS, 60, 1));
    r.cache_result("c.genesis", host_record("c.genesis", ResolverType::Hybrid, 60, 1));
    r.cache_result("d.com", host_record("d.com", ResolverType::Traditional, 60, 1));
    r.cache_result("e.genesis", host_record("e.genesis", ResolverType::Genesis, 60, 1));
    assert_eq!(
        r.cache_stats(),
        CacheStats { total_entries: 5, genesis_domains: 2, traditional_domains: 1 }
    );
}

#[test]
fn storing_again_overwrites_and_keys_are_case_sensitive() {
    let mut r = resolver(true);
    r.cache_result("Test.genesis", host_record("Test.genesis", ResolverType::Genesis, 60, 1));
    r.cache_result("test.genesis", host_record("test.genesis", ResolverType::Genesis, 60, 2));
    assert_eq!(r.cache_stats().total_entries, 2);
    r.cache_result("test.genesis", host_record("test.genesis", ResolverType::Traditional, 5, 9));
    assert_eq!(
        r.cache_stats(),
        CacheStats { total_entries: 2, genesis_domains: 1, traditional_domains: 1 }
    );
    assert_eq!(
        r.cached("test.genesis"),
        Some(&host_record("test.genesis", ResolverType::Traditional, 5, 9))
    );
    assert_eq!(r.cached("Test.genesis").unwrap().timestamp, 1);
}

#[test]
fn name_service_address_yields_genesis_record() {
    let mut r = resolver(true);
    let got = r.complete_genesis_at(
        "test.genesis",
        GenesisResponse::Found(service_record(
            Some(IpAddress::V4(192, 168, 1, 100)),
            None,
            Some(3600),
        )),
        42,
    );
    let want = DnsResult {
        domain: "test.genesis".to_string(),
        ip_address: Some(IpAddress::V4(192, 168, 1, 100)),
        content_hash: None,
        resolver_type: ResolverType::Genesis,
        ttl: 3600,
        timestamp: 42,
    };
    assert_eq!(got, Ok(want.clone()));
    assert_eq!(r.cached("test.genesis"), Some(&want));
}

#[test]
fn name_service_content_hash_yields_content_record_with_default_ttl() {
    let mut r = resolver(true);
    let got = r.complete_genesis_at(
        "test.genesis",
        GenesisResponse::Found(service_record(None, Some("Qm123"), None)),
        42,
    );
    let want = DnsResult {
        domain: "test.genesis".to_string(),
        ip_address: None,
        content_hash: Some("Qm123".to_string()),
        resolver_type: ResolverType::IPFS,
        ttl: 3600,
        timestamp: 42,
    };
    assert_eq!(DEFAULT_GENESIS_TTL, 3600);
    assert_eq!(got, Ok(want.clone()));
    assert_eq!(r.cached("test.genesis"), Some(&want));
}

#[test]
fn name_service_record_with_both_keeps_the_address_alone() {
    let got = convert_genesis_domain_at(
        "both.genesis",
        service_record(Some(IpAddress::V6(0x2001, 0xdb8, 0, 0, 0, 0, 0, 1)), Some("Qm9"), Some(7)),
        3,
    )
    .unwrap();
    assert_eq!(got.ip_address, Some(IpAddress::V6(0x2001, 0xdb8, 0, 0, 0, 0, 0, 1)));
    assert_eq!(got.content_hash, None);
    assert_eq!(got.resolver_type, ResolverType::Genesis);
    assert_eq!(got.ttl, 7);
    assert_eq!(got.domain, "both.genesis");
}

#[test]
fn name_service_record_with_neither_is_an_invalid_response() {
    let mut r = resolver(true);
    let got = r.complete_genesis_at(
        "test.genesis",
        GenesisResponse::Found(service_record(None, None, Some(10))),
        42,
    );
    assert_eq!(
        got,
        Err(DnsError::InvalidResponse(
            "record holds neither an address nor a content hash".to_string()
        ))
    );
    assert!(r.cached("test.genesis").is_none());
    assert_eq!(r.cache_stats().total_entries, 0);
}

#[test]
fn record_carries_the_domain_that_was_asked_for() {
    let mut rec = service_record(Some(IpAddress::V4(10, 0, 0, 1)), None, None);
    rec.name = "other.genesis".to_string();
    let got = convert_genesis_domain_at("asked.genesis", rec, 0).unwrap();
    assert_eq!(got.domain, "asked.genesis");
}

#[test]
fn convert_with_the_clock_stamps_the_present() {
    let r = resolver(true);
    let before = chrono::Utc::now().timestamp() as u64;
    let got = r
        .convert_genesis_domain(
            "test.genesis",
            service_record(Some(IpAddress::V4(1, 2, 3, 4)), None, Some(0)),
        )
        .unwrap();
    let after = chrono::Utc::now().timestamp() as u64;
    assert!(before <= got.timestamp && got.timestamp <= after);
    assert_eq!(got.ttl, 0);
}

#[test]
fn name_service_failures_map_to_their_errors_and_are_not_cached() {
    let mut r = resolver(true);
    r.cache_result("test.genesis", host_record("test.genesis", ResolverType::Genesis, 1, 1));
    let cases = vec![
        (
            GenesisResponse::Unreachable("connection refused".to_string()),
            DnsError::ConnectionError("connection refused".to_string()),
        ),
        (
            GenesisResponse::Rejected("404 Not Found".to_string()),
            DnsError::NodeError("404 Not Found".to_string()),
        ),
        (
            GenesisResponse::Malformed("missing field `name`".to_string()),
            DnsError::InvalidResponse("missing field `name`".to_string()),
        ),
    ];
    for (response, error) in cases {
        assert_eq!(r.complete_genesis_at("test.genesis", response, 99), Err(error));
        assert_eq!(
            r.cached("test.genesis"),
            Some(&host_record("test.genesis", ResolverType::Genesis, 1, 1))
        );
    }
    assert_eq!(
        interpret_genesis_response("x.dao", GenesisResponse::Rejected("500".to_string()), 1),
        Err(DnsError::NodeError("500".to_string()))
    );
}

#[test]
fn conventional_lookup_without_addresses_is_no_results() {
    let mut r = resolver(true);
    assert_eq!(r.begin_resolve_at("example.com", 1), ResolveStep::QueryConventional);
    let got = r.complete_traditional_at("example.com", LookupOutcome::Addresses(vec![]), 1);
    assert_eq!(got, Err(DnsError::NoResults("example.com".to_string())));
    assert!(r.cached("example.com").is_none());
}

#[test]
fn conventional_lookup_takes_the_first_address_for_five_minutes() {
    let mut r = resolver(true);
    let got = r.complete_traditional_at(
        "example.com",
        LookupOutcome::Addresses(vec![
            IpAddress::V4(93, 184, 216, 34),
            IpAddress::V6(0x2606, 0x2800, 0x220, 1, 0x248, 0x1893, 0x25c8, 0x1946),
        ]),
        77,
    );
    let want = DnsResult {
        domain: "example.com".to_string(),
        ip_address: Some(IpAddress::V4(93, 184, 216, 34)),
        content_hash: None,
        resolver_type: ResolverType::Traditional,
        ttl: 300,
        timestamp: 77,
    };
    assert_eq!(TRADITIONAL_TTL, 300);
    assert_eq!(got, Ok(want.clone()));
    assert_eq!(r.begin_resolve_at("example.com", 377), ResolveStep::Cached(want));
    assert_eq!(r.begin_resolve_at("example.com", 378), ResolveStep::QueryConventional);
    assert_eq!(
        r.cache_stats(),
        CacheStats { total_entries: 1, genesis_domains: 0, traditional_domains: 1 }
    );
}

#[test]
fn conventional_lookup_failures_map_to_their_errors() {
    let mut r = resolver(true);
    assert_eq!(
        r.complete_traditional_at("example.com", LookupOutcome::Failed("timed out".to_string()), 1),
        Err(DnsError::ResolutionFailed("timed out".to_string()))
    );
    assert_eq!(
        r.complete_traditional_at("example.com", LookupOutcome::Unavailable, 1),
        Err(DnsError::UnsupportedDomain("example.com".to_string()))
    );
    assert_eq!(
        interpret_lookup("a.org", LookupOutcome::Addresses(vec![]), 1),
        Err(DnsError::NoResults("a.org".to_string()))
    );
    assert_eq!(r.cache_stats().total_entries, 0);
}

#[test]
fn completion_with_the_clock_caches_a_valid_record() {
    let mut r = resolver(true);
    let a = r
        .complete_genesis(
            "test.genesis",
            GenesisResponse::Found(service_record(Some(IpAddress::V4(1, 1, 1, 1)), None, None)),
        )
        .unwrap();
    let b = r
        .complete_traditional(
            "example.com",
            LookupOutcome::Addresses(vec![IpAddress::V4(2, 2, 2, 2)]),
        )
        .unwrap();
    assert_eq!(r.begin_resolve("test.genesis"), ResolveStep::Cached(a));
    assert_eq!(r.begin_resolve("example.com"), ResolveStep::Cached(b));
    assert_eq!(
        r.complete_genesis("bad.genesis", GenesisResponse::Unreachable("down".to_string())),
        Err(DnsError::ConnectionError("down".to_string()))
    );
    assert_eq!(r.cache_stats().total_entries, 2);
}

#[test]
fn display_form_prefers_address_then_content_then_domain() {
    let mut rec = host_record("test.genesis", ResolverType::Genesis, 1, 1);
    rec.content_hash = Some("Qm123".to_string());
    assert_eq!(rec.display_form(), DisplayForm::Address(IpAddress::V4(192, 168, 1, 100)));
    rec.ip_address = None;
    assert_eq!(rec.display_form(), DisplayForm::Text("ipfs://Qm123".to_string()));
    rec.content_hash = None;
    assert_eq!(rec.display_form(), DisplayForm::Text("test.genesis".to_string()));
}

#[test]
fn error_messages_name_the_kind_and_the_cause() {
    let cases = vec![
        (DnsError::UnsupportedDomain("a.com".to_string()), "Unsupported domain: a.com"),
        (DnsError::ConnectionError("refused".to_string()), "Connection error: refused"),
        (DnsError::NodeError("404".to_string()), "Node error: 404"),
        (DnsError::InvalidResponse("eof".to_string()), "Invalid response: eof"),
        (DnsError::ResolutionFailed("timeout".to_string()), "Resolution failed: timeout"),
        (DnsError::NoResults("a.com".to_string()), "No results for domain: a.com"),
    ];
    for (error, text) in cases {
        assert_eq!(error.message(), text);
        assert_eq!(error.clone(), error);
    }
    assert_eq!(DnsError::NodeError("503".to_string()).detail(), "503");
}

#[test]
fn clone_of_a_record_is_equal_to_it() {
    let mut rec = host_record("test.genesis", ResolverType::Hybrid, 9, 8);
    rec.content_hash = Some("Qm".to_string());
    assert_eq!(rec.clone(), rec);
}

#[test]
fn cache_maps_domains_to_their_latest_record() {
    let mut cache = genesis_browser::cache::DnsCache::new();
    assert_eq!(cache.len(), 0);
    assert!(cache.get("a.genesis").is_none());
    cache.insert("a.genesis", host_record("a.genesis", ResolverType::Genesis, 10, 100));
    cache.insert("b.com", host_record("b.com", ResolverType::Traditional, 20, 100));
    cache.insert("a.genesis", host_record("a.genesis", ResolverType::IPFS, 30, 100));
    assert_eq!(cache.len(), 2);
    assert_eq!(cache.get("a.genesis"), Some(&host_record("a.genesis", ResolverType::IPFS, 30, 100)));
    assert_eq!(
        cache.stats(),
        CacheStats { total_entries: 2, genesis_domains: 0, traditional_domains: 1 }
    );
    cache.remove_expired(121);
    assert_eq!(cache.len(), 1);
    assert!(cache.get("b.com").is_none());
    cache.remove_expired(131);
    assert_eq!(cache.len(), 0);
}
