use proxy_discovery::cache::ProxyCache;
use proxy_discovery::discover::{
    discovery_candidates, fallback_hosts, find_shared_url, Action, Discovery, Event, Phase, Service,
    CACHED_PROBE_TIMEOUT_SECS, DISCOVERY_SERVER_PORT,
};
use proxy_discovery::subnet::{accepted_hosts, scan_targets};
use proxy_discovery::target::{has_scheme, parse_target, url_has_host, with_default_scheme};
use proxy_discovery::trust::{contains_text, resolve_ca_pem};

fn s(x: &str) -> String {
    x.to_string()
}

fn svc(original: &str, shared: &str) -> Service {
    Service { original_url: s(original), shared_url: s(shared) }
}

/// Drives a discovery of `http://example.com/page` in remote-only mode up to
/// the instance list `[A, B]`.
fn at_instances() -> Discovery {
    let (mut d, a) = Discovery::start("example.com/page", 5, true);
    assert_eq!(a, Action::LoadCache);
    assert_eq!(d.step(Event::CacheLoaded(ProxyCache::new())), Action::ScanSubnet { port: DISCOVERY_SERVER_PORT });
    let a = d.step(Event::Scanned(vec![]));
    assert_eq!(a, Action::QueryDiscovery { host: s("192.168.0.81"), port: DISCOVERY_SERVER_PORT, timeout_secs: 5 });
    let a = d.step(Event::InstanceList(Some(vec![s("A"), s("B")])));
    assert_eq!(a, Action::GetServices { instance: s("A") });
    d
}

#[test]
fn default_scheme_is_prefixed() {
    assert_eq!(with_default_scheme("example.com/page"), "http://example.com/page");
    assert_eq!(with_default_scheme("localhost:3000"), "http://localhost:3000");
    assert_eq!(with_default_scheme("https://example.com"), "https://example.com");
    assert_eq!(with_default_scheme(""), "http://");
}

#[test]
fn scheme_detection() {
    assert!(has_scheme("http://x"));
    assert!(has_scheme("svn+ssh://x"));
    assert!(!has_scheme("example.com"));
    assert!(!has_scheme("1http://x"));
    assert!(!has_scheme("://x"));
    assert!(!has_scheme("http:/x"));
}

#[test]
fn parse_target_normalises() {
    let t = parse_target("example.com/page").unwrap();
    assert_eq!(t.url, "http://example.com/page");
    assert_eq!(t.host, "example.com");
    let t = parse_target("HTTP://Example.COM").unwrap();
    assert_eq!(t.url, "http://example.com/");
    assert_eq!(t.host, "example.com");
}

#[test]
fn parse_target_rejects_bad_urls() {
    assert!(parse_target("http://[::1").is_none());
    assert!(parse_target("").is_none());
    assert!(parse_target("data:text/plain,x").is_none());
}

#[test]
fn host_equality_ignores_path_and_port() {
    assert!(url_has_host(&s("http://example.com"), &s("example.com")));
    assert!(url_has_host(&s("https://example.com:8443/x?y"), &s("example.com")));
    assert!(!url_has_host(&s("http://other.com"), &s("example.com")));
    assert!(!url_has_host(&s("example.com"), &s("example.com")));
}

#[test]
fn ten_network_is_not_scanned() {
    assert!(scan_targets("10.0.0.5").is_empty());
    assert!(scan_targets("10.20.30.40").is_empty());
}

#[test]
fn subnet_candidates_cover_the_24() {
    let c = scan_targets("192.168.1.50");
    assert_eq!(c.len(), 254);
    assert_eq!(c[0], "192.168.1.1");
    assert_eq!(c[9], "192.168.1.10");
    assert_eq!(c[80], "192.168.1.81");
    assert_eq!(c[253], "192.168.1.254");
    assert_eq!(c[98], "192.168.1.99");
    assert_eq!(c[99], "192.168.1.100");
    let c = scan_targets("100.2.3.4");
    assert_eq!(c[0], "100.2.3.1");
}

#[test]
fn malformed_local_address_gives_nothing() {
    assert!(scan_targets("192.168.1").is_empty());
    assert!(scan_targets("1.2.3.4.5").is_empty());
    assert!(scan_targets("").is_empty());
}

#[test]
fn only_accepting_host_is_found() {
    let c = scan_targets("192.168.1.50");
    let mut acc = vec![false; c.len()];
    acc[80] = true;
    assert_eq!(accepted_hosts(&c, &acc), vec![s("192.168.1.81")]);
    assert!(accepted_hosts(&c, &vec![false; c.len()]).is_empty());
    assert_eq!(accepted_hosts(&c, &vec![true]), vec![s("192.168.1.1")]);
}

#[test]
fn candidates_end_with_fallback_hosts() {
    assert_eq!(fallback_hosts(), vec![s("192.168.0.81"), s("192.168.1.81")]);
    assert_eq!(
        discovery_candidates(vec![s("192.168.5.9")]),
        vec![s("192.168.5.9"), s("192.168.0.81"), s("192.168.1.81")]
    );
}

#[test]
fn cache_round_trip() {
    let mut c = ProxyCache::new();
    assert_eq!(c.lookup(&s("http://example.com/page")), None);
    c.insert(s("http://example.com/page"), s("http://A/p1"));
    assert_eq!(c.lookup(&s("http://example.com/page")), Some(s("http://A/p1")));
    c.insert(s("http://example.com/page"), s("http://A/p1"));
    assert_eq!(c.pairs(), vec![(s("http://example.com/page"), s("http://A/p1"))]);
}

#[test]
fn cache_overwrites_and_keeps_others() {
    let mut c = ProxyCache::new();
    c.insert(s("a"), s("1"));
    c.insert(s("b"), s("2"));
    c.insert(s("a"), s("3"));
    assert_eq!(c.lookup(&s("a")), Some(s("3")));
    assert_eq!(c.lookup(&s("b")), Some(s("2")));
    assert_eq!(c.pairs().len(), 2);
    let d = ProxyCache::from_pairs(vec![(s("k"), s("x")), (s("k"), s("y"))]);
    assert_eq!(d.lookup(&s("k")), Some(s("y")));
}

#[test]
fn first_matching_service_wins() {
    let v = vec![svc("http://other.com", "http://A/p0"), svc("http://example.com", "http://A/p1"), svc("http://example.com/x", "http://A/p9")];
    assert_eq!(find_shared_url(&v, &s("example.com")), Some(s("http://A/p1")));
    assert_eq!(find_shared_url(&v, &s("none.com")), None);
    assert_eq!(find_shared_url(&vec![], &s("example.com")), None);
}

#[test]
fn direct_reach_returns_target() {
    let (mut d, a) = Discovery::start("example.com/page", 7, false);
    assert_eq!(a, Action::ProbeDirect { url: s("http://example.com/page"), timeout_secs: 7 });
    assert_eq!(d.step(Event::Reachable(true)), Action::Finish(Some(s("http://example.com/page"))));
    assert_eq!(d.phase, Phase::Done);
}

#[test]
fn unparsable_target_finishes_empty() {
    let (d, a) = Discovery::start("http://[::1", 5, false);
    assert_eq!(a, Action::Finish(None));
    assert_eq!(d.phase, Phase::Done);
}

#[test]
fn live_cached_proxy_is_used() {
    let (mut d, _) = Discovery::start("example.com/page", 5, false);
    assert_eq!(d.step(Event::Reachable(false)), Action::LoadCache);
    let mut c = ProxyCache::new();
    c.insert(s("http://example.com/page"), s("http://A/p1"));
    assert_eq!(
        d.step(Event::CacheLoaded(c)),
        Action::ProbeCached { url: s("http://A/p1"), timeout_secs: CACHED_PROBE_TIMEOUT_SECS }
    );
    assert_eq!(d.step(Event::Reachable(true)), Action::Finish(Some(s("http://A/p1"))));
}

#[test]
fn dead_cached_proxy_leads_to_negotiation() {
    let (mut d, _) = Discovery::start("example.com/page", 5, true);
    let mut c = ProxyCache::new();
    c.insert(s("http://example.com/page"), s("http://A/p1"));
    let _ = d.step(Event::CacheLoaded(c));
    assert_eq!(d.step(Event::Reachable(false)), Action::ScanSubnet { port: DISCOVERY_SERVER_PORT });
    assert_eq!(d.phase, Phase::Scan);
}

#[test]
fn phase_one_matches_on_host() {
    let mut d = at_instances();
    let a = d.step(Event::Services(Some(vec![svc("http://example.com", "http://A/p1")])));
    assert_eq!(a, Action::SaveCache { target: s("http://example.com/page"), proxy: s("http://A/p1") });
    let mut cache = ProxyCache::new();
    if let Action::SaveCache { target, proxy } = a {
        cache.insert(target, proxy);
    }
    assert_eq!(d.step(Event::Saved), Action::Finish(Some(s("http://A/p1"))));
    assert_eq!(cache.lookup(&s("http://example.com/page")), Some(s("http://A/p1")));
}

#[test]
fn phase_two_creates_proxy() {
    let mut d = at_instances();
    assert_eq!(d.step(Event::Services(Some(vec![svc("http://other.com", "http://A/p0")]))), Action::GetServices { instance: s("B") });
    assert_eq!(
        d.step(Event::Services(None)),
        Action::CheckReach { instance: s("A"), target: s("http://example.com/page") }
    );
    assert_eq!(
        d.step(Event::ReachReport(Some(true))),
        Action::CreateProxy { instance: s("A"), target: s("http://example.com/page") }
    );
    let a = d.step(Event::Created { status: 201, service: Some(svc("http://example.com/page", "http://A/p2")) });
    assert_eq!(a, Action::SaveCache { target: s("http://example.com/page"), proxy: s("http://A/p2") });
    assert_eq!(d.step(Event::Saved), Action::Finish(Some(s("http://A/p2"))));
}

#[test]
fn phase_two_skips_failures() {
    let mut d = at_instances();
    let _ = d.step(Event::Services(None));
    let _ = d.step(Event::Services(None));
    assert_eq!(
        d.step(Event::ReachReport(Some(true))),
        Action::CreateProxy { instance: s("A"), target: s("http://example.com/page") }
    );
    assert_eq!(
        d.step(Event::Created { status: 500, service: Some(svc("x", "http://A/p2")) }),
        Action::CheckReach { instance: s("B"), target: s("http://example.com/page") }
    );
    assert_eq!(d.step(Event::ReachReport(Some(false))), Action::Finish(None));
}

#[test]
fn empty_instance_list_finishes_empty() {
    let (mut d, _) = Discovery::start("example.com", 5, true);
    let _ = d.step(Event::CacheLoaded(ProxyCache::new()));
    let _ = d.step(Event::Scanned(vec![s("192.168.1.7")]));
    assert_eq!(d.step(Event::InstanceList(Some(vec![]))), Action::Finish(None));
}

#[test]
fn failed_discovery_servers_are_skipped() {
    let (mut d, _) = Discovery::start("example.com", 5, true);
    let _ = d.step(Event::CacheLoaded(ProxyCache::new()));
    let a = d.step(Event::Scanned(vec![s("192.168.1.7")]));
    assert_eq!(a, Action::QueryDiscovery { host: s("192.168.1.7"), port: DISCOVERY_SERVER_PORT, timeout_secs: 5 });
    assert_eq!(
        d.step(Event::InstanceList(None)),
        Action::QueryDiscovery { host: s("192.168.0.81"), port: DISCOVERY_SERVER_PORT, timeout_secs: 5 }
    );
    assert_eq!(
        d.step(Event::InstanceList(None)),
        Action::QueryDiscovery { host: s("192.168.1.81"), port: DISCOVERY_SERVER_PORT, timeout_secs: 5 }
    );
    assert_eq!(d.step(Event::InstanceList(None)), Action::Finish(None));
}

#[test]
fn unexpected_event_ends_discovery() {
    let (mut d, _) = Discovery::start("example.com", 5, false);
    assert_eq!(d.step(Event::Saved), Action::Finish(None));
}

#[test]
fn ca_resolution() {
    assert!(contains_text("ab__CA_CERT_PLACEHOLDER__cd", "__CA_CERT_PLACEHOLDER__"));
    assert!(!contains_text("abc", "abcd"));
    assert_eq!(resolve_ca_pem("PEM", Some(s("other"))), Some(s("PEM")));
    assert_eq!(resolve_ca_pem("__CA_CERT_PLACEHOLDER__", Some(s("other"))), Some(s("other")));
    assert_eq!(resolve_ca_pem("__CA_CERT_PLACEHOLDER__", None), None);
}

#[test]
fn cache_json_decoding() {
    let c = ProxyCache::from_json(b"{\"http://example.com/page\": \"http://A/p1\", \"b\": \"c\"}");
    assert_eq!(c.lookup(&s("http://example.com/page")), Some(s("http://A/p1")));
    assert_eq!(c.lookup(&s("b")), Some(s("c")));
    assert_eq!(c.pairs().len(), 2);
    assert!(ProxyCache::from_json(b"not json").pairs().is_empty());
    assert!(ProxyCache::from_json(b"{\"a\": 1}").pairs().is_empty());
    assert!(ProxyCache::from_json(b"").pairs().is_empty());
}

#[test]
fn cache_json_round_trip() {
    let mut c = ProxyCache::new();
    c.insert(s("http://example.com/page"), s("http://A/p1"));
    let text = c.to_json().unwrap();
    assert_eq!(String::from_utf8(text.clone()).unwrap(), "{\n  \"http://example.com/page\": \"http://A/p1\"\n}");
    let mut d = ProxyCache::from_json(&text);
    assert_eq!(d.lookup(&s("http://example.com/page")), Some(s("http://A/p1")));
    d.insert(s("http://example.com/page"), s("http://A/p1"));
    assert_eq!(d.to_json().unwrap(), text);
}
