//! Endpoint resolution: which registry servers to try, in which order.
use crate::url::{base_url, build_base_url};
use crate::{BaseConfig, EurekaConfig};
use vstd::prelude::*;

verus! {

/// A registry server to call, with the zone it was found in (empty when the
/// server list came from configuration).
#[derive(Debug)]
pub struct Endpoint {
    pub url: String,
    pub zone: String,
}

/// The hosts of one zone, in the order DNS listed them.
#[derive(Debug)]
pub struct ZoneHosts {
    pub zone: String,
    pub hosts: Vec<String>,
}

/// The zones of the configured region, as last discovered.
#[derive(Debug)]
pub struct ClusterTopology {
    pub zones: Vec<ZoneHosts>,
}

/// The indices of a list of zone positions, as integers.
pub open spec fn as_ints(v: Seq<usize>) -> Seq<int> {
    v.map_values(|x: usize| x as int)
}

/// The zone names that a list of zone records names.
pub open spec fn record_zones(records: Seq<String>) -> Seq<Seq<char>> {
    records.map_values(|z: String| zone_of_record(z@))
}

pub open spec fn string_views(s: Seq<String>) -> Seq<Seq<char>> {
    s.map_values(|z: String| z@)
}

/// Base URL and zone of each endpoint.
pub open spec fn endpoint_views(e: Seq<Endpoint>) -> Seq<(Seq<char>, Seq<char>)> {
    e.map_values(|x: Endpoint| (x.url@, x.zone@))
}

/// A strategy that orders the candidate registry servers for one attempt.
pub trait ClusterResolver {
    /// Base URL and zone of each candidate for attempt `retry_attempts`, in order.
    spec fn spec_resolve(&self, retry_attempts: nat) -> Seq<(Seq<char>, Seq<char>)>;

    fn resolve_eureka_url(&self, retry_attempts: usize) -> (r: Vec<Endpoint>)
        ensures
            endpoint_views(r@) == self.spec_resolve(retry_attempts as nat),
    ;
}

/// The server list of the static strategy: the configured URLs, or else the
/// one server that `host`, `port`, `ssl` and `service_path` name.
pub open spec fn configured_urls(config: EurekaConfig) -> Seq<Seq<char>> {
    if config.service_urls@.len() > 0 {
        config.service_urls@.map_values(|u: String| u@)
    } else {
        seq![base_url(config.ssl, config.host@, config.port, config.service_path@)]
    }
}

/// The static strategy: the configured servers, always in configured order.
#[derive(Debug)]
pub struct ConfigClusterResolver {
    service_urls: Vec<String>,
}

impl ConfigClusterResolver {
    pub closed spec fn urls(&self) -> Seq<Seq<char>> {
        self.service_urls@.map_values(|u: String| u@)
    }

    pub fn new(config: &EurekaConfig) -> (r: Self)
        ensures
            r.urls() == configured_urls(*config),
    {
        ConfigClusterResolver { service_urls: Self::build_service_urls(config) }
    }

    /// The server list that `config` names.
    pub fn build_service_urls(config: &EurekaConfig) -> (r: Vec<String>)
        ensures
            r@.map_values(|u: String| u@) == configured_urls(*config),
    {
        if config.service_urls.len() > 0 {
            let r = config.service_urls.clone();
            proof {
                assert(r@ =~= config.service_urls@);
            }
            r
        } else {
            let url = build_base_url(
                config.ssl,
                config.host.as_str(),
                config.port,
                config.service_path.as_str(),
            );
            let r = vec![url];
            proof {
                assert(r@.map_values(|u: String| u@) =~= configured_urls(*config));
            }
            r
        }
    }
}

impl ClusterResolver for ConfigClusterResolver {
    open spec fn spec_resolve(&self, retry_attempts: nat) -> Seq<(Seq<char>, Seq<char>)> {
        self.urls().map_values(|u: Seq<char>| (u, Seq::<char>::empty()))
    }

    fn resolve_eureka_url(&self, retry_attempts: usize) -> (r: Vec<Endpoint>) {
        let mut r: Vec<Endpoint> = Vec::new();
        let mut i: usize = 0;
        while i < self.service_urls.len()
            invariant
                i <= self.service_urls.len(),
                r.len() == i,
                endpoint_views(r@) == self.spec_resolve(retry_attempts as nat).take(i as int),
            decreases self.service_urls.len() - i,
        {
            let e = Endpoint { url: self.service_urls[i].clone(), zone: String::new() };
            assert(e.url@ == self.urls()[i as int]);
            r.push(e);
            proof {
                assert(endpoint_views(r@)[i as int] == self.spec_resolve(retry_attempts as nat)[i as int]);
                assert(endpoint_views(r@) =~= self.spec_resolve(retry_attempts as nat).take(
                    i + 1,
                ));
            }
            i = i + 1;
        }
        proof {
            assert(self.spec_resolve(retry_attempts as nat).take(i as int) =~= self.spec_resolve(
                retry_attempts as nat,
            ));
        }
        r
    }
}

/// Index of the first `.` in `s`, or its length when there is none.
pub open spec fn first_dot(s: Seq<char>) -> nat
    decreases s.len(),
{
    if s.len() == 0 {
        0
    } else if s[0] == '.' {
        0
    } else {
        1 + first_dot(s.drop_first())
    }
}

/// The zone that a zone record names: its first DNS label.
pub open spec fn zone_of_record(record: Seq<char>) -> Seq<char> {
    record.take(first_dot(record) as int)
}

proof fn lemma_first_dot(s: Seq<char>, i: int)
    requires
        0 <= i <= s.len(),
        forall|j: int| 0 <= j < i ==> s[j] != '.',
        i == s.len() || s[i] == '.',
    ensures
        first_dot(s) == i,
    decreases i,
{
    if i > 0 {
        lemma_first_dot(s.drop_first(), i - 1);
    }
}

/// The first DNS label of `record`.
fn record_zone(record: &str) -> (r: String)
    ensures
        r@ == zone_of_record(record@),
{
    let n = record.unicode_len();
    let mut i: usize = 0;
    while i < n && record.get_char(i) != '.'
        invariant
            n == record@.len(),
            i <= n,
            forall|j: int| 0 <= j < i ==> record@[j] != '.',
        decreases n - i,
    {
        i = i + 1;
    }
    proof {
        lemma_first_dot(record@, i as int);
    }
    record.substring_char(0, i).to_owned()
}

/// Keeps the indices `i < n` whose zone name satisfies `keep`, in order.
pub open spec fn select_zones(zones: Seq<ZoneHosts>, keep: spec_fn(Seq<char>) -> bool, n: nat) -> Seq<int>
    decreases n,
{
    if n == 0 {
        Seq::empty()
    } else {
        let front = select_zones(zones, keep, (n - 1) as nat);
        if keep(zones[n - 1].zone@) {
            front.push(n - 1)
        } else {
            front
        }
    }
}

/// `s` rotated left by `r` places.
pub open spec fn rotated(s: Seq<int>, r: nat) -> Seq<int> {
    if s.len() == 0 {
        s
    } else {
        let k = (r % s.len()) as int;
        s.subrange(k, s.len() as int) + s.subrange(0, k)
    }
}

/// A zone name is the preferred one.
pub open spec fn is_preferred(preferred: Option<Seq<char>>, name: Seq<char>) -> bool {
    preferred matches Some(z) && name == z
}

pub open spec fn in_preferred(preferred: Option<Seq<char>>) -> spec_fn(Seq<char>) -> bool {
    |n: Seq<char>| is_preferred(preferred, n)
}

pub open spec fn not_preferred(preferred: Option<Seq<char>>) -> spec_fn(Seq<char>) -> bool {
    |n: Seq<char>| !is_preferred(preferred, n)
}

/// The order in which the zones are tried: the preferred zone first, then
/// the others, rotated by the retry attempt.
pub open spec fn zone_order(zones: Seq<ZoneHosts>, preferred: Option<Seq<char>>, retry_attempts: nat) -> Seq<int> {
    select_zones(zones, in_preferred(preferred), zones.len()) + rotated(
        select_zones(zones, not_preferred(preferred), zones.len()),
        retry_attempts,
    )
}

/// The endpoints of one zone: one per host, in host order.
pub open spec fn zone_endpoints(z: ZoneHosts, ssl: bool, port: u16, service_path: Seq<char>) -> Seq<(Seq<char>, Seq<char>)> {
    z.hosts@.map_values(|h: String| (base_url(ssl, h@, port, service_path), z.zone@))
}

/// The endpoints of the zones at `order`, zone after zone.
pub open spec fn endpoints_for(
    zones: Seq<ZoneHosts>,
    order: Seq<int>,
    ssl: bool,
    port: u16,
    service_path: Seq<char>,
) -> Seq<(Seq<char>, Seq<char>)>
    decreases order.len(),
{
    if order.len() == 0 {
        Seq::empty()
    } else {
        endpoints_for(zones, order.drop_last(), ssl, port, service_path) + zone_endpoints(
            zones[order.last()],
            ssl,
            port,
            service_path,
        )
    }
}

/// What a topology refresh looks up first, and how long to wait between refreshes.
#[derive(Debug)]
pub struct ClusterRefresh {
    /// TXT name that lists the zone records of the region.
    pub lookup_name: String,
    pub interval: usize,
}

/// The DNS strategy: a topology refreshed in the background, read without I/O.
#[derive(Debug)]
pub struct DnsClusterResolver {
    ssl: bool,
    port: u16,
    service_path: String,
    host: String,
    region: String,
    client_zone: Option<String>,
    prefer_same_zone: bool,
    refresh_interval: usize,
    cluster: Option<ClusterTopology>,
}

impl DnsClusterResolver {
    /// The current topology; none before the first successful refresh.
    pub closed spec fn current(&self) -> Option<ClusterTopology> {
        self.cluster
    }

    /// The zone tried first, when zone preference applies.
    pub closed spec fn preferred(&self) -> Option<Seq<char>> {
        if self.prefer_same_zone {
            match self.client_zone {
                Some(z) => Some(z@),
                None => None,
            }
        } else {
            None
        }
    }

    pub closed spec fn spec_ssl(&self) -> bool {
        self.ssl
    }

    pub closed spec fn spec_port(&self) -> u16 {
        self.port
    }

    pub closed spec fn spec_service_path(&self) -> Seq<char> {
        self.service_path@
    }

    pub closed spec fn spec_host(&self) -> Seq<char> {
        self.host@
    }

    pub closed spec fn spec_region(&self) -> Seq<char> {
        self.region@
    }

    pub closed spec fn spec_refresh_interval(&self) -> usize {
        self.refresh_interval
    }

    /// A resolver with no topology yet; the client's zone is the availability
    /// zone of its cloud metadata.
    pub fn new(config: &BaseConfig) -> (r: Self)
        ensures
            r.current() is None,
            r.spec_ssl() == config.eureka.ssl,
            r.spec_port() == config.eureka.port,
            r.spec_service_path() == config.eureka.service_path@,
            r.spec_host() == config.eureka.host@,
            r.spec_region() == config.eureka.ec2_region@,
            r.spec_refresh_interval() == config.eureka.cluster_refresh_interval,
            r.preferred() == (if config.eureka.prefer_same_zone {
                match config.instance.data_center_info.metadata {
                    Some(m) => Some(m.availability_zone@),
                    None => None,
                }
            } else {
                None::<Seq<char>>
            }),
    {
        let client_zone = match &config.instance.data_center_info.metadata {
            Some(m) => Some(m.availability_zone.clone()),
            None => None,
        };
        DnsClusterResolver {
            ssl: config.eureka.ssl,
            port: config.eureka.port,
            service_path: config.eureka.service_path.clone(),
            host: config.eureka.host.clone(),
            region: config.eureka.ec2_region.clone(),
            client_zone,
            prefer_same_zone: config.eureka.prefer_same_zone,
            refresh_interval: config.eureka.cluster_refresh_interval,
            cluster: None,
        }
    }

    pub fn get_current_cluster(&self) -> (r: &Option<ClusterTopology>)
        ensures
            *r == self.current(),
    {
        &self.cluster
    }

    /// The first lookup of a topology refresh, `txt.{region}.{host}`, and the
    /// refresh interval.
    pub fn start_cluster_refresh(&self) -> (r: ClusterRefresh)
        ensures
            r.lookup_name@ == "txt."@ + self.spec_region() + "."@ + self.spec_host(),
            r.interval == self.spec_refresh_interval(),
    {
        let mut name = String::from_str("txt.");
        name.append(self.region.as_str());
        name.append(".");
        name.append(self.host.as_str());
        ClusterRefresh { lookup_name: name, interval: self.refresh_interval }
    }

    /// The TXT name that lists the hosts of a zone record.
    pub fn resolve_zone_hosts(&self, zone_record: &str) -> (r: String)
        ensures
            r@ == "txt."@ + zone_record@,
    {
        let mut name = String::from_str("txt.");
        name.append(zone_record);
        name
    }

    /// The zone names of zone records, in order.
    pub fn get_availability_zones(&self, zone_records: &Vec<String>) -> (r: Vec<String>)
        ensures
            string_views(r@) == record_zones(zone_records@),
    {
        let mut r: Vec<String> = Vec::new();
        let mut i: usize = 0;
        while i < zone_records.len()
            invariant
                i <= zone_records.len(),
                r.len() == i,
                string_views(r@) == record_zones(zone_records@.take(i as int)),
            decreases zone_records.len() - i,
        {
            let ghost before = r@;
            let z = record_zone(zone_records[i].as_str());
            r.push(z);
            proof {
                assert(string_views(r@) =~= string_views(before).push(z@));
                assert(record_zones(zone_records@.take(i + 1)) =~= record_zones(
                    zone_records@.take(i as int),
                ).push(zone_of_record(zone_records@[i as int]@)));
                assert(zone_records@.take(i + 1) =~= zone_records@.take(i as int).push(
                    zone_records@[i as int],
                ));
                assert(string_views(r@) =~= record_zones(zone_records@.take(i + 1)));
            }
            i = i + 1;
        }
        proof {
            assert(zone_records@.take(i as int) =~= zone_records@);
        }
        r
    }

    /// The topology that one refresh found: for each zone record, the zone it
    /// names with the hosts listed for it, in record order.
    pub fn resolve_cluster_hosts(&self, answers: Vec<(String, Vec<String>)>) -> (r: ClusterTopology)
        ensures
            r.zones.len() == answers.len(),
            forall|i: int|
                0 <= i < answers.len() ==> (#[trigger] r.zones@[i]).zone@ == zone_of_record(
                    answers@[i].0@,
                ) && r.zones@[i].hosts == answers@[i].1,
    {
        let mut zones: Vec<ZoneHosts> = Vec::new();
        let mut rest = answers;
        let ghost all = rest@;
        while rest.len() > 0
            invariant
                zones.len() + rest.len() == all.len(),
                rest@ == all.subrange(zones.len() as int, all.len() as int),
                forall|i: int|
                    0 <= i < zones.len() ==> (#[trigger] zones@[i]).zone@ == zone_of_record(
                        all[i].0@,
                    ) && zones@[i].hosts == all[i].1,
            decreases rest.len(),
        {
            let (record, hosts) = rest.remove(0);
            let zone = record_zone(record.as_str());
            zones.push(ZoneHosts { zone, hosts });
            proof {
                assert(rest@ =~= all.subrange(zones.len() as int, all.len() as int));
            }
        }
        ClusterTopology { zones }
    }

    /// Takes the outcome of one refresh: a new topology replaces the old one
    /// whole; a failed refresh leaves the old one in place.
    pub fn apply_cluster_refresh(&mut self, refreshed: Option<ClusterTopology>)
        ensures
            final(self).current() == (match refreshed {
                Some(t) => Some(t),
                None => old(self).current(),
            }),
            final(self).preferred() == old(self).preferred(),
            final(self).spec_ssl() == old(self).spec_ssl(),
            final(self).spec_port() == old(self).spec_port(),
            final(self).spec_service_path() == old(self).spec_service_path(),
    {
        match refreshed {
            Some(t) => {
                self.cluster = Some(t);
            },
            None => {},
        }
    }

    /// Ends a refresh: the zone records with their hosts, or none when a
    /// lookup failed. A complete, non-empty answer replaces the topology;
    /// otherwise the old one stays.
    pub fn finish_cluster_refresh(&mut self, answers: Option<Vec<(String, Vec<String>)>>)
        ensures
            final(self).preferred() == old(self).preferred(),
            final(self).spec_ssl() == old(self).spec_ssl(),
            final(self).spec_port() == old(self).spec_port(),
            final(self).spec_service_path() == old(self).spec_service_path(),
            match answers {
                Some(a) if a.len() > 0 => final(self).current() matches Some(t) && t.zones.len() == a.len()
                    && forall|i: int|
                    0 <= i < a.len() ==> (#[trigger] t.zones@[i]).zone@ == zone_of_record(a@[i].0@)
                        && t.zones@[i].hosts == a@[i].1,
                _ => final(self).current() == old(self).current(),
            },
    {
        match answers {
            Some(a) => {
                if a.len() > 0 {
                    let topology = self.resolve_cluster_hosts(a);
                    self.apply_cluster_refresh(Some(topology));
                } else {
                    self.apply_cluster_refresh(None);
                }
            },
            None => self.apply_cluster_refresh(None),
        }
    }

    fn keeps_preferred(&self, zone: &String) -> (r: bool)
        ensures
            r == is_preferred(self.preferred(), zone@),
    {
        if self.prefer_same_zone {
            match &self.client_zone {
                Some(z) => *z == *zone,
                None => false,
            }
        } else {
            false
        }
    }

    /// Indices of the zones, in the order `zone_order` gives.
    fn order_zones(&self, zones: &Vec<ZoneHosts>, retry_attempts: usize) -> (r: Vec<usize>)
        ensures
            as_ints(r@) == zone_order(zones@, self.preferred(), retry_attempts as nat),
            forall|t: int| 0 <= t < r.len() ==> r@[t] < zones.len(),
    {
        let ghost pref = self.preferred();
        let ghost keep_first = in_preferred(pref);
        let ghost keep_rest = not_preferred(pref);
        let mut first: Vec<usize> = Vec::new();
        let mut rest: Vec<usize> = Vec::new();
        let mut i: usize = 0;
        while i < zones.len()
            invariant
                i <= zones.len(),
                pref == self.preferred(),
                keep_first == in_preferred(pref),
                keep_rest == not_preferred(pref),
                as_ints(first@) == select_zones(zones@, keep_first, i as nat),
                as_ints(rest@) == select_zones(zones@, keep_rest, i as nat),
                forall|t: int| 0 <= t < first.len() ==> first@[t] < i,
                forall|t: int| 0 <= t < rest.len() ==> rest@[t] < i,
            decreases zones.len() - i,
        {
            let ghost first_before = first@;
            let ghost rest_before = rest@;
            if self.keeps_preferred(&zones[i].zone) {
                first.push(i);
                proof {
                    assert(keep_first(zones@[i as int].zone@));
                    assert(select_zones(zones@, keep_first, (i + 1) as nat) == select_zones(
                        zones@,
                        keep_first,
                        i as nat,
                    ).push(i as int));
                    assert(as_ints(first@) =~= as_ints(first_before).push(i as int));
                    assert(as_ints(first@) =~= select_zones(
                        zones@,
                        keep_first,
                        (i + 1) as nat,
                    ));
                }
            } else {
                rest.push(i);
                proof {
                    assert(keep_rest(zones@[i as int].zone@));
                    assert(!keep_first(zones@[i as int].zone@));
                    assert(select_zones(zones@, keep_rest, (i + 1) as nat) == select_zones(
                        zones@,
                        keep_rest,
                        i as nat,
                    ).push(i as int));
                    assert(as_ints(rest@) =~= as_ints(rest_before).push(i as int));
                    assert(as_ints(rest@) =~= select_zones(
                        zones@,
                        keep_rest,
                        (i + 1) as nat,
                    ));
                }
            }
            i = i + 1;
        }
        let ghost rest_seq = as_ints(rest@);
        let k = rest.len();
        let mut order = first;
        let ghost first_seq = as_ints(order@);
        if k > 0 {
            let start = retry_attempts % k;
            let mut j: usize = start;
            while j < k
                invariant
                    start <= j <= k,
                    k == rest.len(),
                    rest_seq == as_ints(rest@),
                    rest_seq.len() == k,
                    as_ints(order@) == first_seq + rest_seq.subrange(start as int, j as int),
                    forall|t: int| 0 <= t < order.len() ==> order@[t] < zones.len(),
                    forall|t: int| 0 <= t < rest.len() ==> rest@[t] < zones.len(),
                decreases k - j,
            {
                let ghost order_before = order@;
                order.push(rest[j]);
                assert(as_ints(order@) =~= as_ints(order_before).push(rest_seq[j as int]));
                proof {
                    assert(as_ints(order@) =~= first_seq + rest_seq.subrange(
                        start as int,
                        j + 1,
                    ));
                }
                j = j + 1;
            }
            let mut j: usize = 0;
            while j < start
                invariant
                    j <= start < k,
                    k == rest.len(),
                    rest_seq == as_ints(rest@),
                    rest_seq.len() == k,
                    as_ints(order@) == first_seq + rest_seq.subrange(start as int, k as int)
                        + rest_seq.subrange(0, j as int),
                    forall|t: int| 0 <= t < order.len() ==> order@[t] < zones.len(),
                    forall|t: int| 0 <= t < rest.len() ==> rest@[t] < zones.len(),
                decreases start - j,
            {
                let ghost order_before = order@;
                order.push(rest[j]);
                assert(as_ints(order@) =~= as_ints(order_before).push(rest_seq[j as int]));
                proof {
                    assert(as_ints(order@) =~= first_seq + rest_seq.subrange(
                        start as int,
                        k as int,
                    ) + rest_seq.subrange(0, j + 1));
                }
                j = j + 1;
            }
            proof {
                assert(as_ints(order@) =~= zone_order(
                    zones@,
                    pref,
                    retry_attempts as nat,
                ));
            }
        } else {
            proof {
                assert(as_ints(order@) =~= zone_order(
                    zones@,
                    pref,
                    retry_attempts as nat,
                ));
            }
        }
        order
    }

    /// Appends one endpoint per host of zone `z`.
    fn push_zone_endpoints(&self, out: &mut Vec<Endpoint>, z: &ZoneHosts)
        ensures
            endpoint_views(final(out)@) == endpoint_views(old(out)@) + zone_endpoints(
                *z,
                self.spec_ssl(),
                self.spec_port(),
                self.spec_service_path(),
            ),
    {
        let ghost start = endpoint_views(out@);
        let mut h: usize = 0;
        while h < z.hosts.len()
            invariant
                h <= z.hosts.len(),
                endpoint_views(out@).len() == start.len() + h,
                endpoint_views(out@) == start + zone_endpoints(
                    *z,
                    self.spec_ssl(),
                    self.spec_port(),
                    self.spec_service_path(),
                ).take(h as int),
            decreases z.hosts.len() - h,
        {
            let url = build_base_url(
                self.ssl,
                z.hosts[h].as_str(),
                self.port,
                self.service_path.as_str(),
            );
            let ghost before = out@;
            let e = Endpoint { url, zone: z.zone.clone() };
            out.push(e);
            proof {
                assert(out@ == before.push(e));
                assert(endpoint_views(out@) =~= endpoint_views(before).push((e.url@, e.zone@)));
                assert((e.url@, e.zone@) == zone_endpoints(
                    *z,
                    self.spec_ssl(),
                    self.spec_port(),
                    self.spec_service_path(),
                )[h as int]);
                assert(endpoint_views(out@) =~= start + zone_endpoints(
                    *z,
                    self.spec_ssl(),
                    self.spec_port(),
                    self.spec_service_path(),
                ).take(h + 1));
            }
            h = h + 1;
        }
        proof {
            assert(zone_endpoints(*z, self.spec_ssl(), self.spec_port(), self.spec_service_path()).take(
                h as int,
            ) =~= zone_endpoints(*z, self.spec_ssl(), self.spec_port(), self.spec_service_path()));
        }
    }
}

impl ClusterResolver for DnsClusterResolver {
    open spec fn spec_resolve(&self, retry_attempts: nat) -> Seq<(Seq<char>, Seq<char>)> {
        match self.current() {
            None => Seq::empty(),
            Some(c) => endpoints_for(
                c.zones@,
                zone_order(c.zones@, self.preferred(), retry_attempts),
                self.spec_ssl(),
                self.spec_port(),
                self.spec_service_path(),
            ),
        }
    }

    fn resolve_eureka_url(&self, retry_attempts: usize) -> (r: Vec<Endpoint>) {
        let mut out: Vec<Endpoint> = Vec::new();
        match &self.cluster {
            None => {},
            Some(c) => {
                let order = self.order_zones(&c.zones, retry_attempts);
                let ghost ord = as_ints(order@);
                let mut t: usize = 0;
                while t < order.len()
                    invariant
                        t <= order.len(),
                        self.cluster == Some(*c),
                        ord == as_ints(order@),
                        forall|u: int| 0 <= u < order.len() ==> order@[u] < c.zones.len(),
                        endpoint_views(out@) == endpoints_for(
                            c.zones@,
                            ord.take(t as int),
                            self.spec_ssl(),
                            self.spec_port(),
                            self.spec_service_path(),
                        ),
                    decreases order.len() - t,
                {
                    self.push_zone_endpoints(&mut out, &c.zones[order[t]]);
                    proof {
                        assert(ord.take(t + 1).drop_last() =~= ord.take(t as int));
                    }
                    t = t + 1;
                }
                proof {
                    assert(ord.take(t as int) =~= ord);
                }
            },
        }
        out
    }
}

proof fn lemma_select_zones_keep(zones: Seq<ZoneHosts>, keep: spec_fn(Seq<char>) -> bool, n: nat)
    ensures
        forall|t: int|
            0 <= t < select_zones(zones, keep, n).len() ==> 0 <= #[trigger] select_zones(zones, keep, n)[t] < n
                && keep(zones[select_zones(zones, keep, n)[t]].zone@),
    decreases n,
{
    if n > 0 {
        let m = (n - 1) as nat;
        lemma_select_zones_keep(zones, keep, m);
        let front = select_zones(zones, keep, m);
        let all = select_zones(zones, keep, n);
        assert forall|t: int| 0 <= t < all.len() implies 0 <= #[trigger] all[t] < n && keep(
            zones[all[t]].zone@,
        ) by {
            if t < front.len() {
                assert(all[t] == front[t]);
            } else {
                assert(all[t] == m);
            }
        }
    }
}

proof fn lemma_rotated_members(s: Seq<int>, r: nat, p: spec_fn(int) -> bool)
    requires
        forall|t: int| 0 <= t < s.len() ==> p(#[trigger] s[t]),
    ensures
        forall|t: int| 0 <= t < rotated(s, r).len() ==> p(#[trigger] rotated(s, r)[t]),
{
    if s.len() > 0 {
        let k = (r % s.len()) as int;
        assert forall|t: int| 0 <= t < rotated(s, r).len() implies p(#[trigger] rotated(s, r)[t]) by {
            if t < s.len() - k {
                assert(rotated(s, r)[t] == s[k + t]);
            } else {
                assert(rotated(s, r)[t] == s[t - (s.len() - k)]);
            }
        }
    }
}

proof fn lemma_endpoints_concat(
    zones: Seq<ZoneHosts>,
    a: Seq<int>,
    b: Seq<int>,
    ssl: bool,
    port: u16,
    service_path: Seq<char>,
)
    ensures
        endpoints_for(zones, a + b, ssl, port, service_path) == endpoints_for(zones, a, ssl, port, service_path)
            + endpoints_for(zones, b, ssl, port, service_path),
    decreases b.len(),
{
    if b.len() == 0 {
        assert(a + b =~= a);
        assert(endpoints_for(zones, a, ssl, port, service_path) + endpoints_for(
            zones,
            b,
            ssl,
            port,
            service_path,
        ) =~= endpoints_for(zones, a, ssl, port, service_path));
    } else {
        assert((a + b).drop_last() =~= a + b.drop_last());
        assert((a + b).last() == b.last());
        lemma_endpoints_concat(zones, a, b.drop_last(), ssl, port, service_path);
        let ea = endpoints_for(zones, a, ssl, port, service_path);
        let eb = endpoints_for(zones, b.drop_last(), ssl, port, service_path);
        let z = zone_endpoints(zones[b.last()], ssl, port, service_path);
        assert((ea + eb) + z =~= ea + (eb + z));
    }
}

proof fn lemma_endpoints_zone(
    zones: Seq<ZoneHosts>,
    order: Seq<int>,
    p: spec_fn(Seq<char>) -> bool,
    ssl: bool,
    port: u16,
    service_path: Seq<char>,
)
    requires
        forall|t: int| 0 <= t < order.len() ==> p(zones[#[trigger] order[t]].zone@),
    ensures
        forall|i: int|
            0 <= i < endpoints_for(zones, order, ssl, port, service_path).len() ==> p(
                (#[trigger] endpoints_for(zones, order, ssl, port, service_path)[i]).1,
            ),
    decreases order.len(),
{
    if order.len() > 0 {
        let front = order.drop_last();
        assert forall|t: int| 0 <= t < front.len() implies p(zones[#[trigger] front[t]].zone@) by {
            assert(front[t] == order[t]);
        }
        lemma_endpoints_zone(zones, front, p, ssl, port, service_path);
        let ef = endpoints_for(zones, front, ssl, port, service_path);
        let z = zone_endpoints(zones[order.last()], ssl, port, service_path);
        assert(p(zones[order[order.len() - 1]].zone@));
        assert forall|i: int|
            0 <= i < endpoints_for(zones, order, ssl, port, service_path).len() implies p(
            (#[trigger] endpoints_for(zones, order, ssl, port, service_path)[i]).1,
        ) by {
            if i < ef.len() {
                assert(endpoints_for(zones, order, ssl, port, service_path)[i] == ef[i]);
            } else {
                assert(endpoints_for(zones, order, ssl, port, service_path)[i] == z[i - ef.len()]);
            }
        }
    }
}

/// With zone preference, every endpoint in the client's own zone comes before
/// every endpoint in another zone, whatever the retry attempt.
pub proof fn lemma_same_zone_first(
    zones: Seq<ZoneHosts>,
    client_zone: Seq<char>,
    retry_attempts: nat,
    ssl: bool,
    port: u16,
    service_path: Seq<char>,
)
    ensures
        ({
            let e = endpoints_for(
                zones,
                zone_order(zones, Some(client_zone), retry_attempts),
                ssl,
                port,
                service_path,
            );
            forall|i: int, j: int|
                0 <= i < e.len() && 0 <= j < e.len() && e[i].1 == client_zone && e[j].1 != client_zone
                    ==> i < j
        }),
{
    let pref = Some(client_zone);
    let a = select_zones(zones, in_preferred(pref), zones.len());
    let s = select_zones(zones, not_preferred(pref), zones.len());
    let b = rotated(s, retry_attempts);
    lemma_select_zones_keep(zones, in_preferred(pref), zones.len());
    lemma_select_zones_keep(zones, not_preferred(pref), zones.len());
    let same = |name: Seq<char>| name == client_zone;
    let other = |name: Seq<char>| name != client_zone;
    assert forall|t: int| 0 <= t < a.len() implies same(zones[#[trigger] a[t]].zone@) by {
        assert(in_preferred(pref)(zones[a[t]].zone@));
    }
    let other_at = |x: int| other(zones[x].zone@);
    assert forall|t: int| 0 <= t < s.len() implies other_at(#[trigger] s[t]) by {
        assert(not_preferred(pref)(zones[s[t]].zone@));
    }
    lemma_rotated_members(s, retry_attempts, other_at);
    assert forall|t: int| 0 <= t < b.len() implies other(zones[#[trigger] b[t]].zone@) by {
        assert(other_at(b[t]));
    }
    lemma_endpoints_zone(zones, a, same, ssl, port, service_path);
    lemma_endpoints_zone(zones, b, other, ssl, port, service_path);
    lemma_endpoints_concat(zones, a, b, ssl, port, service_path);
    let ea = endpoints_for(zones, a, ssl, port, service_path);
    let eb = endpoints_for(zones, b, ssl, port, service_path);
    let e = endpoints_for(zones, zone_order(zones, pref, retry_attempts), ssl, port, service_path);
    assert(e == ea + eb);
    assert forall|i: int, j: int|
        0 <= i < e.len() && 0 <= j < e.len() && e[i].1 == client_zone && e[j].1 != client_zone implies i
        < j by {
        if i >= ea.len() {
            assert(e[i] == eb[i - ea.len()]);
            assert(other(eb[i - ea.len()].1));
        }
        if j < ea.len() {
            assert(e[j] == ea[j]);
            assert(same(ea[j].1));
        }
    }
}

/// A DNS resolver with zone preference lists every endpoint of the client's
/// zone before every endpoint of another zone, for every attempt.
pub proof fn lemma_resolver_prefers_own_zone(r: DnsClusterResolver, retry_attempts: nat)
    requires
        r.preferred() is Some,
    ensures
        ({
            let e = r.spec_resolve(retry_attempts);
            let z = r.preferred().unwrap();
            forall|i: int, j: int|
                0 <= i < e.len() && 0 <= j < e.len() && e[i].1 == z && e[j].1 != z ==> i < j
        }),
{
    match r.current() {
        None => {},
        Some(c) => {
            lemma_same_zone_first(
                c.zones@,
                r.preferred().unwrap(),
                retry_attempts,
                r.spec_ssl(),
                r.spec_port(),
                r.spec_service_path(),
            );
        },
    }
}

} // verus!
