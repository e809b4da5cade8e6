//! The discovery procedure as a state machine: each step takes what the last
//! action brought back and names the next action.
use vstd::prelude::*;
use vstd::string::StringExecFns;
use crate::cache::ProxyCache;
use crate::target::{host_is, parse_target, target_of, url_has_host};

verus! {

/// The TCP port of the discovery servers.
pub const DISCOVERY_SERVER_PORT: u16 = 45679;

/// Seconds given to the liveness probe of a cached proxy.
pub const CACHED_PROBE_TIMEOUT_SECS: u64 = 2;

/// The well-known discovery servers, tried after the scanned ones.
pub open spec fn fallback_hosts_spec() -> Seq<Seq<char>> {
    seq!["192.168.0.81"@, "192.168.1.81"@]
}

/// The well-known discovery servers.
pub fn fallback_hosts() -> (r: Vec<String>)
    ensures
        r.deep_view() == fallback_hosts_spec(),
{
    let mut r: Vec<String> = Vec::new();
    r.push(String::from_str("192.168.0.81"));
    r.push(String::from_str("192.168.1.81"));
    assert(r.deep_view() =~= fallback_hosts_spec());
    r
}

/// The discovery servers to query, in order: the scanned hosts, then the
/// well-known ones.
pub fn discovery_candidates(found: Vec<String>) -> (r: Vec<String>)
    ensures
        r.deep_view() == found.deep_view() + fallback_hosts_spec(),
{
    let mut r = found;
    let mut extra = fallback_hosts();
    let ghost a = r.deep_view();
    let ghost b = extra.deep_view();
    r.append(&mut extra);
    assert(r.deep_view() =~= a + b);
    r
}

/// A proxy mapping reported by an instance.
#[derive(Debug, Clone, PartialEq, Eq)]
pub struct Service {
    pub original_url: String,
    pub shared_url: String,
}

/// The shared URL of the first service whose original URL has the host `host`.
pub open spec fn first_match(svcs: Seq<Service>, host: Seq<char>) -> Option<Seq<char>>
    decreases svcs.len(),
{
    if svcs.len() == 0 {
        None
    } else if host_is(svcs[0].original_url@, host) {
        Some(svcs[0].shared_url@)
    } else {
        first_match(svcs.drop_first(), host)
    }
}

pub open spec fn opt_view(o: Option<String>) -> Option<Seq<char>> {
    match o {
        Some(s) => Some(s@),
        None => None,
    }
}

/// The shared URL of the first service, in list order, whose original URL
/// has the host `host`.
pub fn find_shared_url(services: &Vec<Service>, host: &String) -> (r: Option<String>)
    ensures
        opt_view(r) == first_match(services@, host@),
{
    let mut i: usize = 0;
    assert(services@.subrange(0, services@.len() as int) =~= services@);
    while i < services.len()
        invariant
            0 <= i <= services@.len(),
            first_match(services@, host@) == first_match(services@.subrange(i as int, services@.len() as int), host@),
        decreases services@.len() - i,
    {
        assert(services@.subrange(i as int, services@.len() as int).drop_first()
            =~= services@.subrange(i + 1, services@.len() as int));
        assert(services@.subrange(i as int, services@.len() as int)[0] == services@[i as int]);
        if url_has_host(&services[i].original_url, host) {
            return Some(services[i].shared_url.clone());
        }
        i = i + 1;
    }
    None
}

/// An HTTP status in the success class.
pub open spec fn is_success(status: u16) -> bool {
    200 <= status && status < 300
}

/// What the caller is asked to do next.
#[derive(Debug, PartialEq, Eq)]
pub enum Action {
    /// Send a HEAD request to `url` directly, bypassing any system proxy.
    ProbeDirect { url: String, timeout_secs: u64 },
    /// Load the proxy cache.
    LoadCache,
    /// Send a HEAD request to the cached proxy `url`, bypassing any system proxy.
    ProbeCached { url: String, timeout_secs: u64 },
    /// Probe `port` on every address of the local subnet.
    ScanSubnet { port: u16 },
    /// Send `LIST` to the discovery server `host` and read its instance list.
    QueryDiscovery { host: String, port: u16, timeout_secs: u64 },
    /// `GET http://<instance>/services`.
    GetServices { instance: String },
    /// `GET http://<instance>/can-reach?url=<target>`.
    CheckReach { instance: String, target: String },
    /// `POST http://<instance>/proxies` with the body `{url: <target>}`.
    CreateProxy { instance: String, target: String },
    /// Store `target -> proxy` in the cache.
    SaveCache { target: String, proxy: String },
    /// The procedure is over: the URL to use, or none.
    Finish(Option<String>),
}

/// What the last action brought back.
pub enum Event {
    /// The HEAD request got a response.
    Reachable(bool),
    /// The cache as loaded.
    CacheLoaded(ProxyCache),
    /// The subnet hosts that accepted a connection.
    Scanned(Vec<String>),
    /// The instance addresses, or `None` where the query failed.
    InstanceList(Option<Vec<String>>),
    /// The services, or `None` where the request or its parse failed.
    Services(Option<Vec<Service>>),
    /// The instance's reachability answer, or `None` where it failed.
    ReachReport(Option<bool>),
    /// The response status of the creation and the parsed service.
    Created { status: u16, service: Option<Service> },
    /// The cache write is over, whether it succeeded or not.
    Saved,
}

/// Where the procedure stands.
#[derive(Debug, PartialEq, Eq)]
pub enum Phase {
    Direct,
    Cache,
    CachedProbe,
    Scan,
    Discovery,
    Lookup,
    Reach,
    Create,
    Save,
    Done,
}

/// The state of one discovery.
pub struct Discovery {
    /// The normalised target URL.
    pub target: String,
    /// The target's host.
    pub host: String,
    pub timeout_secs: u64,
    pub phase: Phase,
    /// The cached proxy under its liveness probe.
    pub cached: String,
    /// The discovery servers to query.
    pub candidates: Vec<String>,
    /// The instances to negotiate with.
    pub instances: Vec<String>,
    /// The candidate or instance being asked.
    pub index: usize,
    /// The proxy found, while it is being cached.
    pub found: String,
}

impl Discovery {
    /// The index points into the list that the phase walks.
    pub open spec fn wf(&self) -> bool {
        &&& (self.phase is Discovery ==> self.index < self.candidates@.len())
        &&& (self.phase is Lookup || self.phase is Reach || self.phase is Create)
            ==> self.index < self.instances@.len()
    }
}

/// The target, host and timeout carry over.
pub open spec fn same_job(s: Discovery, t: Discovery) -> bool {
    t.target@ == s.target@ && t.host@ == s.host@ && t.timeout_secs == s.timeout_secs
}

/// The procedure ends with `res`.
pub open spec fn finishes(t: Discovery, a: Action, res: Option<Seq<char>>) -> bool {
    t.phase is Done && match a {
        Action::Finish(r) => opt_view(r) == res,
        _ => false,
    }
}

/// The next action queries the discovery server at `i`.
pub open spec fn asks_discovery(t: Discovery, a: Action, i: int) -> bool {
    t.phase is Discovery && t.index == i && match a {
        Action::QueryDiscovery { host, port, timeout_secs } => host@ == t.candidates@[i]@
            && port == DISCOVERY_SERVER_PORT && timeout_secs == t.timeout_secs,
        _ => false,
    }
}

/// The next action asks the instance at `i` for its services.
pub open spec fn asks_services(t: Discovery, a: Action, i: int) -> bool {
    t.phase is Lookup && t.index == i && match a {
        Action::GetServices { instance } => instance@ == t.instances@[i]@,
        _ => false,
    }
}

/// The next action asks the instance at `i` whether it reaches the target.
pub open spec fn asks_reach(t: Discovery, a: Action, i: int) -> bool {
    t.phase is Reach && t.index == i && match a {
        Action::CheckReach { instance, target } => instance@ == t.instances@[i]@ && target@ == t.target@,
        _ => false,
    }
}

/// The next action asks the instance at `i` to create a proxy for the target.
pub open spec fn asks_create(t: Discovery, a: Action, i: int) -> bool {
    t.phase is Create && t.index == i && match a {
        Action::CreateProxy { instance, target } => instance@ == t.instances@[i]@ && target@ == t.target@,
        _ => false,
    }
}

/// The next action caches `target -> proxy`, and `proxy` is the result to come.
pub open spec fn asks_save(t: Discovery, a: Action, proxy: Seq<char>) -> bool {
    t.phase is Save && t.found@ == proxy && match a {
        Action::SaveCache { target, proxy: p } => target@ == t.target@ && p@ == proxy,
        _ => false,
    }
}

/// The instance list carries over.
pub open spec fn same_instances(s: Discovery, t: Discovery) -> bool {
    t.instances.deep_view() == s.instances.deep_view()
}

/// After a failed discovery server: the next one, or the end.
pub open spec fn next_candidate(s: Discovery, t: Discovery, a: Action) -> bool {
    if s.index + 1 < s.candidates@.len() {
        t.candidates.deep_view() == s.candidates.deep_view() && asks_discovery(t, a, s.index + 1)
    } else {
        finishes(t, a, None)
    }
}

/// After an instance without a match: the next one, or the first of the
/// provisioning phase.
pub open spec fn next_lookup(s: Discovery, t: Discovery, a: Action) -> bool {
    same_instances(s, t) && if s.index + 1 < s.instances@.len() {
        asks_services(t, a, s.index + 1)
    } else {
        asks_reach(t, a, 0)
    }
}

/// After an instance that could not provide: the next one, or the end.
pub open spec fn next_provision(s: Discovery, t: Discovery, a: Action) -> bool {
    if s.index + 1 < s.instances@.len() {
        same_instances(s, t) && asks_reach(t, a, s.index + 1)
    } else {
        finishes(t, a, None)
    }
}

/// One step of the procedure, from state `s` and event `e` to state `t` and
/// action `a`. An event that the phase does not wait for ends the procedure
/// with no result.
pub open spec fn step_spec(s: Discovery, e: Event, t: Discovery, a: Action) -> bool {
    same_job(s, t) && match e {
        Event::Reachable(up) => match s.phase {
            Phase::Direct => if up {
                finishes(t, a, Some(s.target@))
            } else {
                t.phase is Cache && a is LoadCache
            },
            Phase::CachedProbe => if up {
                finishes(t, a, Some(s.cached@))
            } else {
                t.phase is Scan && a == (Action::ScanSubnet { port: DISCOVERY_SERVER_PORT })
            },
            _ => finishes(t, a, None),
        },
        Event::CacheLoaded(c) => match s.phase {
            Phase::Cache => if c@.contains_key(s.target@) {
                t.phase is CachedProbe && t.cached@ == c@[s.target@] && match a {
                    Action::ProbeCached { url, timeout_secs } => url@ == c@[s.target@]
                        && timeout_secs == CACHED_PROBE_TIMEOUT_SECS,
                    _ => false,
                }
            } else {
                t.phase is Scan && a == (Action::ScanSubnet { port: DISCOVERY_SERVER_PORT })
            },
            _ => finishes(t, a, None),
        },
        Event::Scanned(found) => match s.phase {
            Phase::Scan => t.candidates.deep_view() == found.deep_view() + fallback_hosts_spec()
                && asks_discovery(t, a, 0),
            _ => finishes(t, a, None),
        },
        Event::InstanceList(list) => match s.phase {
            Phase::Discovery => match list {
                Some(l) => if l@.len() == 0 {
                    finishes(t, a, None)
                } else {
                    t.instances.deep_view() == l.deep_view() && asks_services(t, a, 0)
                },
                None => next_candidate(s, t, a),
            },
            _ => finishes(t, a, None),
        },
        Event::Services(svcs) => match s.phase {
            Phase::Lookup => match svcs {
                Some(v) => match first_match(v@, s.host@) {
                    Some(p) => asks_save(t, a, p),
                    None => next_lookup(s, t, a),
                },
                None => next_lookup(s, t, a),
            },
            _ => finishes(t, a, None),
        },
        Event::ReachReport(r) => match s.phase {
            Phase::Reach => if r == Some(true) {
                same_instances(s, t) && asks_create(t, a, s.index as int)
            } else {
                next_provision(s, t, a)
            },
            _ => finishes(t, a, None),
        },
        Event::Created { status, service } => match s.phase {
            Phase::Create => match service {
                Some(svc) => if is_success(status) {
                    asks_save(t, a, svc.shared_url@)
                } else {
                    next_provision(s, t, a)
                },
                None => next_provision(s, t, a),
            },
            _ => finishes(t, a, None),
        },
        Event::Saved => match s.phase {
            Phase::Save => finishes(t, a, Some(s.found@)),
            _ => finishes(t, a, None),
        },
    }
}

/// The first state and action of a discovery for `target_url`.
pub open spec fn start_spec(target_url: Seq<char>, timeout_secs: u64, remote_only: bool, s: Discovery, a: Action) -> bool {
    match target_of(target_url) {
        None => finishes(s, a, None),
        Some((u, h)) => {
            &&& s.target@ == u
            &&& s.host@ == h
            &&& s.timeout_secs == timeout_secs
            &&& if remote_only {
                s.phase is Cache && a is LoadCache
            } else {
                s.phase is Direct && match a {
                    Action::ProbeDirect { url, timeout_secs: t } => url@ == u && t == timeout_secs,
                    _ => false,
                }
            }
        },
    }
}

impl Discovery {
    fn fresh(target: String, host: String, timeout_secs: u64, phase: Phase) -> (r: Discovery)
        requires
            phase is Direct || phase is Cache || phase is Done,
        ensures
            r.target == target,
            r.host == host,
            r.timeout_secs == timeout_secs,
            r.phase == phase,
            r.wf(),
    {
        Discovery {
            target,
            host,
            timeout_secs,
            phase,
            cached: String::new(),
            candidates: Vec::new(),
            instances: Vec::new(),
            index: 0,
            found: String::new(),
        }
    }

    /// Begins a discovery for `target_url`: the target gets the default
    /// scheme and is parsed; the first action probes it directly, or, with
    /// `remote_only`, loads the cache. A target that does not parse, or has
    /// no host, ends the procedure with no result.
    pub fn start(target_url: &str, timeout_secs: u64, remote_only: bool) -> (r: (Discovery, Action))
        ensures
            r.0.wf(),
            start_spec(target_url@, timeout_secs, remote_only, r.0, r.1),
    {
        match parse_target(target_url) {
            None => (
                Discovery::fresh(String::new(), String::new(), timeout_secs, Phase::Done),
                Action::Finish(None),
            ),
            Some(t) => {
                if remote_only {
                    (Discovery::fresh(t.url, t.host, timeout_secs, Phase::Cache), Action::LoadCache)
                } else {
                    let url = t.url.clone();
                    (
                        Discovery::fresh(t.url, t.host, timeout_secs, Phase::Direct),
                        Action::ProbeDirect { url, timeout_secs },
                    )
                }
            },
        }
    }

    fn end(&mut self) -> (a: Action)
        ensures
            same_job(*old(self), *final(self)),
            finishes(*final(self), a, None),
            final(self).wf(),
    {
        self.phase = Phase::Done;
        Action::Finish(None)
    }

    fn scan(&mut self) -> (a: Action)
        ensures
            same_job(*old(self), *final(self)),
            final(self).phase is Scan,
            a == (Action::ScanSubnet { port: DISCOVERY_SERVER_PORT }),
            final(self).wf(),
    {
        self.phase = Phase::Scan;
        Action::ScanSubnet { port: DISCOVERY_SERVER_PORT }
    }

    fn save(&mut self, proxy: String) -> (a: Action)
        ensures
            same_job(*old(self), *final(self)),
            asks_save(*final(self), a, proxy@),
            final(self).wf(),
    {
        self.phase = Phase::Save;
        self.found = proxy.clone();
        Action::SaveCache { target: self.target.clone(), proxy }
    }

    fn ask_discovery(&mut self, i: usize) -> (a: Action)
        requires
            i < old(self).candidates@.len(),
        ensures
            same_job(*old(self), *final(self)),
            final(self).candidates == old(self).candidates,
            asks_discovery(*final(self), a, i as int),
            final(self).wf(),
    {
        self.phase = Phase::Discovery;
        self.index = i;
        Action::QueryDiscovery {
            host: self.candidates[i].clone(),
            port: DISCOVERY_SERVER_PORT,
            timeout_secs: self.timeout_secs,
        }
    }

    fn ask_services(&mut self, i: usize) -> (a: Action)
        requires
            i < old(self).instances@.len(),
        ensures
            same_job(*old(self), *final(self)),
            final(self).instances == old(self).instances,
            asks_services(*final(self), a, i as int),
            final(self).wf(),
    {
        self.phase = Phase::Lookup;
        self.index = i;
        Action::GetServices { instance: self.instances[i].clone() }
    }

    fn ask_reach(&mut self, i: usize) -> (a: Action)
        requires
            i < old(self).instances@.len(),
        ensures
            same_job(*old(self), *final(self)),
            final(self).instances == old(self).instances,
            asks_reach(*final(self), a, i as int),
            final(self).wf(),
    {
        self.phase = Phase::Reach;
        self.index = i;
        Action::CheckReach { instance: self.instances[i].clone(), target: self.target.clone() }
    }

    fn ask_create(&mut self) -> (a: Action)
        requires
            old(self).index < old(self).instances@.len(),
        ensures
            same_job(*old(self), *final(self)),
            final(self).instances == old(self).instances,
            asks_create(*final(self), a, old(self).index as int),
            final(self).wf(),
    {
        self.phase = Phase::Create;
        Action::CreateProxy {
            instance: self.instances[self.index].clone(),
            target: self.target.clone(),
        }
    }

    fn next_candidate(&mut self) -> (a: Action)
        requires
            old(self).index < old(self).candidates@.len(),
        ensures
            same_job(*old(self), *final(self)),
            next_candidate(*old(self), *final(self), a),
            final(self).wf(),
    {
        if self.index < self.candidates.len() - 1 {
            self.ask_discovery(self.index + 1)
        } else {
            self.end()
        }
    }

    fn next_lookup(&mut self) -> (a: Action)
        requires
            old(self).index < old(self).instances@.len(),
        ensures
            same_job(*old(self), *final(self)),
            next_lookup(*old(self), *final(self), a),
            final(self).wf(),
    {
        if self.index < self.instances.len() - 1 {
            self.ask_services(self.index + 1)
        } else {
            self.ask_reach(0)
        }
    }

    fn next_provision(&mut self) -> (a: Action)
        requires
            old(self).index < old(self).instances@.len(),
        ensures
            same_job(*old(self), *final(self)),
            next_provision(*old(self), *final(self), a),
            final(self).wf(),
    {
        if self.index < self.instances.len() - 1 {
            self.ask_reach(self.index + 1)
        } else {
            self.end()
        }
    }

    /// Takes what the last action brought back and gives the next action.
    pub fn step(&mut self, e: Event) -> (a: Action)
        requires
            old(self).wf(),
        ensures
            final(self).wf(),
            step_spec(*old(self), e, *final(self), a),
    {
        match e {
            Event::Reachable(up) => match self.phase {
                Phase::Direct => {
                    if up {
                        self.phase = Phase::Done;
                        Action::Finish(Some(self.target.clone()))
                    } else {
                        self.phase = Phase::Cache;
                        Action::LoadCache
                    }
                },
                Phase::CachedProbe => {
                    if up {
                        self.phase = Phase::Done;
                        Action::Finish(Some(self.cached.clone()))
                    } else {
                        self.scan()
                    }
                },
                _ => self.end(),
            },
            Event::CacheLoaded(c) => match self.phase {
                Phase::Cache => match c.lookup(&self.target) {
                    Some(p) => {
                        self.phase = Phase::CachedProbe;
                        self.cached = p.clone();
                        Action::ProbeCached { url: p, timeout_secs: CACHED_PROBE_TIMEOUT_SECS }
                    },
                    None => self.scan(),
                },
                _ => self.end(),
            },
            Event::Scanned(found) => match self.phase {
                Phase::Scan => {
                    self.candidates = discovery_candidates(found);
                    assert(self.candidates.deep_view().len() == self.candidates@.len());
                    assert(self.candidates.deep_view().len() >= 2);
                    self.ask_discovery(0)
                },
                _ => self.end(),
            },
            Event::InstanceList(list) => match self.phase {
                Phase::Discovery => match list {
                    Some(l) => {
                        if l.len() == 0 {
                            self.end()
                        } else {
                            self.instances = l;
                            self.ask_services(0)
                        }
                    },
                    None => self.next_candidate(),
                },
                _ => self.end(),
            },
            Event::Services(svcs) => match self.phase {
                Phase::Lookup => match svcs {
                    Some(v) => match find_shared_url(&v, &self.host) {
                        Some(p) => self.save(p),
                        None => self.next_lookup(),
                    },
                    None => self.next_lookup(),
                },
                _ => self.end(),
            },
            Event::ReachReport(r) => match self.phase {
                Phase::Reach => match r {
                    Some(true) => self.ask_create(),
                    _ => self.next_provision(),
                },
                _ => self.end(),
            },
            Event::Created { status, service } => match self.phase {
                Phase::Create => match service {
                    Some(svc) => {
                        if 200 <= status && status < 300 {
                            self.save(svc.shared_url)
                        } else {
                            self.next_provision()
                        }
                    },
                    None => self.next_provision(),
                },
                _ => self.end(),
            },
            Event::Saved => match self.phase {
                Phase::Save => {
                    self.phase = Phase::Done;
                    Action::Finish(Some(self.found.clone()))
                },
                _ => self.end(),
            },
        }
    }
}

/// Where the target answers directly and the mode is not remote-only, the
/// procedure probes the target and ends with it, asking no instance.
pub proof fn lemma_direct_reach_ends(
    target_url: Seq<char>,
    timeout_secs: u64,
    s0: Discovery,
    a0: Action,
    s1: Discovery,
    a1: Action,
)
    requires
        target_of(target_url) is Some,
        start_spec(target_url, timeout_secs, false, s0, a0),
        step_spec(s0, Event::Reachable(true), s1, a1),
    ensures
        a0 matches Action::ProbeDirect { url, .. } && url@ == target_of(target_url).unwrap().0,
        finishes(s1, a1, Some(target_of(target_url).unwrap().0)),
{
}

/// Where the cache maps the target to a proxy that answers, the procedure
/// ends with that proxy and neither scans nor queries a discovery server.
pub proof fn lemma_cached_live_proxy_ends(
    s0: Discovery,
    c: ProxyCache,
    s1: Discovery,
    a1: Action,
    s2: Discovery,
    a2: Action,
)
    requires
        s0.phase is Cache,
        c@.contains_key(s0.target@),
        step_spec(s0, Event::CacheLoaded(c), s1, a1),
        step_spec(s1, Event::Reachable(true), s2, a2),
    ensures
        a1 matches Action::ProbeCached { url, .. } && url@ == c@[s0.target@],
        finishes(s2, a2, Some(c@[s0.target@])),
{
}

/// Where the cached proxy does not answer, the procedure goes on to the
/// subnet scan and the discovery servers.
pub proof fn lemma_cached_dead_proxy_goes_on(
    s0: Discovery,
    c: ProxyCache,
    s1: Discovery,
    a1: Action,
    s2: Discovery,
    a2: Action,
)
    requires
        s0.phase is Cache,
        c@.contains_key(s0.target@),
        step_spec(s0, Event::CacheLoaded(c), s1, a1),
        step_spec(s1, Event::Reachable(false), s2, a2),
    ensures
        s2.phase is Scan,
        a2 == (Action::ScanSubnet { port: DISCOVERY_SERVER_PORT }),
{
}

/// An empty instance list ends the procedure with no result, before any
/// instance is asked.
pub proof fn lemma_empty_instance_list_ends(s: Discovery, l: Vec<String>, t: Discovery, a: Action)
    requires
        s.phase is Discovery,
        l@.len() == 0,
        step_spec(s, Event::InstanceList(Some(l)), t, a),
    ensures
        finishes(t, a, None),
{
}

/// Where an instance lists a service whose original URL has the target's
/// host, the shared URL of the first such service is cached for the target
/// and is the result.
pub proof fn lemma_lookup_match_ends(
    s0: Discovery,
    v: Vec<Service>,
    s1: Discovery,
    a1: Action,
    s2: Discovery,
    a2: Action,
)
    requires
        s0.phase is Lookup,
        first_match(v@, s0.host@) is Some,
        step_spec(s0, Event::Services(Some(v)), s1, a1),
        step_spec(s1, Event::Saved, s2, a2),
    ensures
        a1 matches Action::SaveCache { target, proxy }
            && target@ == s0.target@ && proxy@ == first_match(v@, s0.host@).unwrap(),
        finishes(s2, a2, first_match(v@, s0.host@)),
{
}

/// Where an instance reaches the target and creates a proxy with success,
/// the new shared URL is cached for the target and is the result.
pub proof fn lemma_created_proxy_ends(
    s0: Discovery,
    s1: Discovery,
    a1: Action,
    status: u16,
    svc: Service,
    s2: Discovery,
    a2: Action,
    s3: Discovery,
    a3: Action,
)
    requires
        s0.phase is Reach,
        s0.wf(),
        is_success(status),
        step_spec(s0, Event::ReachReport(Some(true)), s1, a1),
        step_spec(s1, Event::Created { status, service: Some(svc) }, s2, a2),
        step_spec(s2, Event::Saved, s3, a3),
    ensures
        a1 matches Action::CreateProxy { instance, target }
            && instance@ == s0.instances@[s0.index as int]@ && target@ == s0.target@,
        a2 matches Action::SaveCache { target, proxy } && target@ == s0.target@ && proxy@ == svc.shared_url@,
        finishes(s3, a3, Some(svc.shared_url@)),
{
    let i = s0.index as int;
    assert(s1.instances.deep_view().len() == s1.instances@.len());
    assert(s0.instances.deep_view().len() == s0.instances@.len());
    assert(s1.instances.deep_view()[i] == s1.instances@[i]@);
    assert(s0.instances.deep_view()[i] == s0.instances@[i]@);
}

} // verus!
