//! The facade that wires the resolver, the executor, the lifecycle and the
//! registry cache together for callers.
use crate::executor::RequestExecutor;
use crate::instance::{InstanceClient, LifecycleAction, LifecycleEvent, LifecycleState};
use crate::registry::{app_key, having_key, upper_of, vip_key, RegistryClient};
use crate::resolver::{ClusterResolver, ConfigClusterResolver, DnsClusterResolver, Endpoint, endpoint_views};
use crate::rest::structures::{AmazonMetadataType, DcNameType, Instance, InstanceView, StatusType};
use crate::rest::Method;
use crate::url::{base_url, build_base_url, decimal, decimal_text, scheme};
use crate::{BaseConfig, EurekaConfig, EurekaError};
use vstd::prelude::*;

verus! {

/// The resolution strategy chosen at construction.
#[derive(Debug)]
pub enum Resolver {
    Config(ConfigClusterResolver),
    Dns(DnsClusterResolver),
}

impl ClusterResolver for Resolver {
    open spec fn spec_resolve(&self, retry_attempts: nat) -> Seq<(Seq<char>, Seq<char>)> {
        match self {
            Resolver::Config(c) => c.spec_resolve(retry_attempts),
            Resolver::Dns(d) => d.spec_resolve(retry_attempts),
        }
    }

    fn resolve_eureka_url(&self, retry_attempts: usize) -> (r: Vec<Endpoint>) {
        match self {
            Resolver::Config(c) => c.resolve_eureka_url(retry_attempts),
            Resolver::Dns(d) => d.resolve_eureka_url(retry_attempts),
        }
    }
}

/// One piece of startup work, in the order `start` lists them.
#[derive(Debug, Clone, Copy, PartialEq, Eq, Structural)]
pub enum StartupStep {
    /// Read the cloud metadata and hand it to `add_instance_metadata`.
    FetchMetadata,
    /// Drive the lifecycle until the instance is registered.
    Register,
    StartHeartbeats,
    StartRegistryFetches,
    /// One synchronous registry fetch.
    FetchRegistry,
    /// One synchronous fetch, then poll until the own virtual address shows.
    WaitForRegistry,
}

/// The startup work for a configuration.
pub open spec fn startup_steps(c: EurekaConfig, amazon: bool) -> Seq<StartupStep> {
    (if amazon && c.fetch_metadata {
        seq![StartupStep::FetchMetadata]
    } else {
        Seq::empty()
    }) + (if c.register_with_eureka {
        seq![StartupStep::Register, StartupStep::StartHeartbeats]
    } else {
        Seq::empty()
    }) + (if c.fetch_registry {
        seq![
            StartupStep::StartRegistryFetches,
            if c.wait_for_registry {
                StartupStep::WaitForRegistry
            } else {
                StartupStep::FetchRegistry
            },
        ]
    } else {
        Seq::empty()
    })
}

/// The first required setting that is missing, if any. Registering needs an
/// application name, a virtual address, a port and, in a cloud datacenter,
/// cloud metadata (given, or fetched at startup).
pub open spec fn missing_setting(c: BaseConfig) -> Option<Seq<char>> {
    if !c.eureka.register_with_eureka {
        None
    } else if c.instance.app@.len() == 0 {
        Some("instance.app"@)
    } else if c.instance.vip_address@.len() == 0 {
        Some("instance.vipAddress"@)
    } else if c.instance.port is None {
        Some("instance.port"@)
    } else if c.instance.data_center_info.name == DcNameType::Amazon
        && c.instance.data_center_info.metadata is None && !c.eureka.fetch_metadata {
        Some("instance.dataCenterInfo"@)
    } else {
        None
    }
}

pub open spec fn missing_message(key: Seq<char>) -> Seq<char> {
    "Missing \""@ + key + "\" config value."@
}

/// `path` without its leading slashes.
pub open spec fn trim_slashes(path: Seq<char>) -> Seq<char>
    decreases path.len(),
{
    if path.len() > 0 && path[0] == '/' {
        trim_slashes(path.drop_first())
    } else {
        path
    }
}

/// The port to call an instance on: its secure port when the client uses TLS
/// and that port is enabled; else its plain port when enabled; else 8080.
pub open spec fn target_port(ssl: bool, i: InstanceView) -> u16 {
    if ssl && i.secure_port.spec_value() is Some {
        i.secure_port.spec_value().unwrap()
    } else {
        match i.port {
            Some(p) => match p.spec_value() {
                Some(v) => v,
                None => 8080u16,
            },
            None => 8080u16,
        }
    }
}

/// The URL of `path` at an instance.
pub open spec fn instance_url(ssl: bool, i: InstanceView, path: Seq<char>) -> Seq<char> {
    scheme(ssl) + "://"@ + i.ip_addr + ":"@ + decimal(target_port(ssl, i) as nat) + "/"@ + trim_slashes(path)
}

/// The value of the first entry with key `key`.
pub open spec fn meta_value(pairs: Seq<(String, String)>, key: Seq<char>) -> Option<Seq<char>>
    decreases pairs.len(),
{
    if pairs.len() == 0 {
        None
    } else if pairs[0].0@ == key {
        Some(pairs[0].1@)
    } else {
        meta_value(pairs.drop_first(), key)
    }
}

pub open spec fn meta_or_empty(pairs: Seq<(String, String)>, key: Seq<char>) -> Seq<char> {
    match meta_value(pairs, key) {
        Some(v) => v,
        None => Seq::empty(),
    }
}

/// The metadata entry that names the host, per the configuration.
pub open spec fn host_key(c: EurekaConfig) -> Seq<char> {
    if c.use_local_metadata {
        if c.prefer_ip_address {
            "local-ipv4"@
        } else {
            "local-hostname"@
        }
    } else if c.prefer_ip_address {
        "public-ipv4"@
    } else {
        "public-hostname"@
    }
}

/// The metadata entry that gives the address.
pub open spec fn ip_key(c: EurekaConfig) -> Seq<char> {
    if c.use_local_metadata {
        "local-ipv4"@
    } else {
        "public-ipv4"@
    }
}

/// Cloud metadata read from the entries, empty where an entry is absent.
pub open spec fn metadata_from(m: AmazonMetadataType, pairs: Seq<(String, String)>) -> bool {
    &&& m.ami_launch_index@ == meta_or_empty(pairs, "ami-launch-index"@)
    &&& m.local_hostname@ == meta_or_empty(pairs, "local-hostname"@)
    &&& m.availability_zone@ == meta_or_empty(pairs, "availability-zone"@)
    &&& m.instance_id@ == meta_or_empty(pairs, "instance-id"@)
    &&& m.public_ipv4@ == meta_or_empty(pairs, "public-ipv4"@)
    &&& m.public_hostname@ == meta_or_empty(pairs, "public-hostname"@)
    &&& m.ami_manifest_path@ == meta_or_empty(pairs, "ami-manifest-path"@)
    &&& m.local_ipv4@ == meta_or_empty(pairs, "local-ipv4"@)
    &&& m.hostname@ == meta_or_empty(pairs, "hostname"@)
    &&& m.ami_id@ == meta_or_empty(pairs, "ami-id"@)
    &&& m.instance_type@ == meta_or_empty(pairs, "instance-type"@)
}

/// A request to an instance of another application.
#[derive(Debug)]
pub struct AppRequest {
    pub method: Method,
    pub url: String,
    pub body: Option<String>,
}

/// The discovery client.
pub struct EurekaClient {
    base_url: String,
    config: BaseConfig,
    registry: RegistryClient,
    instance: Option<InstanceClient>,
    resolver: Resolver,
    executor: RequestExecutor,
}

fn metadata_value(pairs: &Vec<(String, String)>, key: &str) -> (r: Option<String>)
    ensures
        match r {
            Some(v) => meta_value(pairs@, key@) == Some(v@),
            None => meta_value(pairs@, key@) is None,
        },
{
    let k = key.to_owned();
    let mut i: usize = 0;
    proof {
        assert(pairs@.skip(0) =~= pairs@);
    }
    while i < pairs.len()
        invariant
            i <= pairs.len(),
            k@ == key@,
            meta_value(pairs@, key@) == meta_value(pairs@.skip(i as int), key@),
        decreases pairs.len() - i,
    {
        proof {
            assert(pairs@.skip(i as int).drop_first() =~= pairs@.skip(i + 1));
        }
        if pairs[i].0 == k {
            return Some(pairs[i].1.clone());
        }
        i = i + 1;
    }
    None
}

fn metadata_or_empty(pairs: &Vec<(String, String)>, key: &str) -> (r: String)
    ensures
        r@ == meta_or_empty(pairs@, key@),
{
    match metadata_value(pairs, key) {
        Some(v) => v,
        None => String::new(),
    }
}

fn trim_leading_slashes(path: &str) -> (r: &str)
    ensures
        r@ == trim_slashes(path@),
{
    let n = path.unicode_len();
    let mut i: usize = 0;
    proof {
        assert(path@.skip(0) =~= path@);
    }
    while i < n && path.get_char(i) == '/'
        invariant
            n == path@.len(),
            i <= n,
            trim_slashes(path@) == trim_slashes(path@.skip(i as int)),
        decreases n - i,
    {
        proof {
            assert(path@.skip(i as int).drop_first() =~= path@.skip(i + 1));
        }
        i = i + 1;
    }
    proof {
        assert(path@.subrange(i as int, n as int) =~= path@.skip(i as int));
    }
    path.substring_char(i, n)
}

impl EurekaClient {
    pub closed spec fn spec_config(&self) -> BaseConfig {
        self.config
    }

    pub closed spec fn spec_base_url(&self) -> Seq<char> {
        self.base_url@
    }

    pub closed spec fn spec_registry(&self) -> RegistryClient {
        self.registry
    }

    pub closed spec fn spec_instance(&self) -> Option<InstanceClient> {
        self.instance
    }

    pub closed spec fn spec_resolver(&self) -> Resolver {
        self.resolver
    }

    pub closed spec fn spec_executor(&self) -> RequestExecutor {
        self.executor
    }

    /// Checks that the settings registration needs are there.
    pub fn validate_config(config: &BaseConfig) -> (r: Result<(), EurekaError>)
        ensures
            r is Ok <==> missing_setting(*config) is None,
            missing_setting(*config) matches Some(key) ==> (r matches Err(EurekaError::Configuration(m))
                && m@ == missing_message(key)),
    {
        let key = if !config.eureka.register_with_eureka {
            None
        } else if config.instance.app.unicode_len() == 0 {
            Some("instance.app")
        } else if config.instance.vip_address.unicode_len() == 0 {
            Some("instance.vipAddress")
        } else if config.instance.port.is_none() {
            Some("instance.port")
        } else if config.instance.data_center_info.name == DcNameType::Amazon
            && config.instance.data_center_info.metadata.is_none() && !config.eureka.fetch_metadata {
            Some("instance.dataCenterInfo")
        } else {
            None
        };
        match key {
            None => Ok(()),
            Some(k) => {
                let mut m = String::from_str("Missing \"");
                m.append(k);
                m.append("\" config value.");
                Err(EurekaError::Configuration(m))
            },
        }
    }

    /// Sets the configured instance's status to up.
    pub fn mark_as_up(config: &mut BaseConfig)
        ensures
            final(config).instance.status == StatusType::Up,
            final(config).eureka == old(config).eureka,
            final(config).instance == (Instance { status: StatusType::Up, ..old(config).instance }),
    {
        config.instance.status = StatusType::Up;
    }

    /// Builds the client from a validated configuration; a missing setting is
    /// an error before any network activity.
    pub fn new(config: BaseConfig) -> (r: Result<Self, EurekaError>)
        ensures
            r is Ok <==> missing_setting(config) is None,
            missing_setting(config) matches Some(key) ==> (r matches Err(EurekaError::Configuration(m))
                && m@ == missing_message(key)),
            r matches Ok(c) ==> {
                &&& c.spec_config().eureka == config.eureka
                &&& c.spec_config().instance == (Instance { status: StatusType::Up, ..config.instance })
                &&& c.spec_base_url() == base_url(
                    config.eureka.ssl,
                    config.eureka.host@,
                    config.eureka.port,
                    config.eureka.service_path@,
                )
                &&& c.spec_registry().wf()
                &&& c.spec_registry().source() == Seq::<InstanceView>::empty()
                &&& (c.spec_instance() is Some <==> config.eureka.register_with_eureka)
                &&& (c.spec_instance() matches Some(i) ==> i.spec_config()@ == c.spec_config().instance@
                    && i.spec_lifecycle().state == LifecycleState::Unregistered)
                &&& (c.spec_resolver() is Dns <==> config.eureka.use_dns)
                &&& c.spec_executor().max_retries == config.eureka.max_retries
                &&& c.spec_executor().retry_delay == config.eureka.request_retry_delay
            },
    {
        match Self::validate_config(&config) {
            Err(e) => {
                return Err(e);
            },
            Ok(()) => {},
        }
        let mut config = config;
        Self::mark_as_up(&mut config);
        let base_url = build_base_url(
            config.eureka.ssl,
            config.eureka.host.as_str(),
            config.eureka.port,
            config.eureka.service_path.as_str(),
        );
        let resolver = if config.eureka.use_dns {
            Resolver::Dns(DnsClusterResolver::new(&config))
        } else {
            Resolver::Config(ConfigClusterResolver::new(&config.eureka))
        };
        let instance = if config.eureka.register_with_eureka {
            Some(InstanceClient::new(config.instance.clone()))
        } else {
            None
        };
        let executor = RequestExecutor::new(config.eureka.max_retries, config.eureka.request_retry_delay);
        Ok(EurekaClient { base_url, config, registry: RegistryClient::new(), instance, resolver, executor })
    }

    /// Lists the startup work in order and starts the lifecycle of a
    /// registering client.
    pub fn start(&mut self) -> (r: Vec<StartupStep>)
        ensures
            r@ == startup_steps(
                old(self).spec_config().eureka,
                old(self).spec_config().instance.data_center_info.name == DcNameType::Amazon,
            ),
            final(self).spec_config() == old(self).spec_config(),
            final(self).spec_registry() == old(self).spec_registry(),
            final(self).spec_instance() is Some == old(self).spec_instance() is Some,
            old(self).spec_instance() matches Some(i) ==> (final(self).spec_instance() matches Some(j)
                && j.spec_config() == i.spec_config() && j.spec_lifecycle() == i.spec_lifecycle().next(
                LifecycleEvent::Start,
            ).0),
    {
        let c = &self.config.eureka;
        let mut steps: Vec<StartupStep> = Vec::new();
        if self.config.instance.data_center_info.name == DcNameType::Amazon && c.fetch_metadata {
            steps.push(StartupStep::FetchMetadata);
        }
        if c.register_with_eureka {
            steps.push(StartupStep::Register);
            steps.push(StartupStep::StartHeartbeats);
        }
        if c.fetch_registry {
            steps.push(StartupStep::StartRegistryFetches);
            if c.wait_for_registry {
                steps.push(StartupStep::WaitForRegistry);
            } else {
                steps.push(StartupStep::FetchRegistry);
            }
        }
        proof {
            assert(steps@ =~= startup_steps(
                self.config.eureka,
                self.config.instance.data_center_info.name == DcNameType::Amazon,
            ));
        }
        match &mut self.instance {
            Some(i) => {
                i.start();
            },
            None => {},
        }
        steps
    }

    /// Stops heartbeats and says whether to deregister.
    pub fn stop(&mut self) -> (r: LifecycleAction)
        ensures
            final(self).spec_config() == old(self).spec_config(),
            final(self).spec_registry() == old(self).spec_registry(),
            old(self).spec_instance() is None ==> r == LifecycleAction::Nothing && final(self).spec_instance() is None,
            old(self).spec_instance() matches Some(i) ==> (final(self).spec_instance() matches Some(j)
                && (j.spec_lifecycle(), r) == i.spec_lifecycle().next(LifecycleEvent::Stop)
                && j.spec_config() == i.spec_config()),
    {
        match &mut self.instance {
            Some(i) => i.stop(),
            None => LifecycleAction::Nothing,
        }
    }

    /// A request for `path` at the first listed instance of application `app`.
    pub fn make_request(&self, app: &str, path: &str, method: Method, body: Option<String>) -> (r: Result<
        AppRequest,
        EurekaError,
    >)
        requires
            self.spec_registry().wf(),
        ensures
            ({
                let found = having_key(self.spec_registry().source(), app_key(), upper_of(app@));
                &&& (r is Err <==> found.len() == 0)
                &&& (r matches Err(e) ==> (e matches EurekaError::UnexpectedState(m) && m@
                    == "Could not find app "@ + app@))
                &&& (r matches Ok(req) ==> req.method == method && req.body == body && req.url@
                    == instance_url(self.spec_config().eureka.ssl, found[0], path@))
            }),
    {
        match self.registry.get_instance_by_app_name(app) {
            None => {
                let mut m = String::from_str("Could not find app ");
                m.append(app);
                Err(EurekaError::UnexpectedState(m))
            },
            Some(instance) => {
                let ssl = self.config.eureka.ssl;
                let port: u16 = if ssl && instance.secure_port.value().is_some() {
                    instance.secure_port.value
                } else {
                    match &instance.port {
                        Some(p) => match p.value() {
                            Some(v) => v,
                            None => 8080,
                        },
                        None => 8080,
                    }
                };
                let mut url = if ssl {
                    String::from_str("https")
                } else {
                    String::from_str("http")
                };
                url.append("://");
                url.append(instance.ip_addr.as_str());
                url.append(":");
                let p = decimal_text(port);
                url.append(p.as_str());
                url.append("/");
                url.append(trim_leading_slashes(path));
                Ok(AppRequest { method, url, body })
            },
        }
    }

    /// Whether the registry shows an instance under the own virtual address;
    /// until it does, wait and fetch again.
    pub fn wait_for_registry_update(&self) -> (r: bool)
        requires
            self.spec_registry().wf(),
        ensures
            r == (having_key(
                self.spec_registry().source(),
                vip_key(),
                self.spec_config().instance.vip_address@,
            ).len() > 0),
    {
        let found = self.registry.get_instances_by_vip_address(self.config.instance.vip_address.as_str());
        found.len() > 0
    }

    /// Enriches the instance document with cloud metadata entries: the
    /// datacenter metadata is read from them, and host name and address are
    /// taken from the entries the configuration points at, where present.
    pub fn add_instance_metadata(&mut self, metadata: Vec<(String, String)>)
        ensures
            final(self).spec_config().eureka == old(self).spec_config().eureka,
            final(self).spec_registry() == old(self).spec_registry(),
            ({
                let before = old(self).spec_config().instance;
                let after = final(self).spec_config().instance;
                let c = old(self).spec_config().eureka;
                &&& (after.data_center_info.metadata matches Some(m) && metadata_from(m, metadata@))
                &&& after.data_center_info.name == before.data_center_info.name
                &&& after.host_name@ == (match meta_value(metadata@, host_key(c)) {
                    Some(v) => v,
                    None => before.host_name@,
                })
                &&& after.ip_addr@ == (match meta_value(metadata@, ip_key(c)) {
                    Some(v) => v,
                    None => before.ip_addr@,
                })
                &&& after.app == before.app
                &&& after.vip_address == before.vip_address
                &&& after.status == before.status
            }),
            old(self).spec_instance() is Some ==> (final(self).spec_instance() matches Some(j) && j.spec_config()@
                == final(self).spec_config().instance@ && j.spec_lifecycle() == old(
                self,
            ).spec_instance().unwrap().spec_lifecycle()),
            old(self).spec_instance() is None ==> final(self).spec_instance() is None,
    {
        let m = AmazonMetadataType {
            ami_launch_index: metadata_or_empty(&metadata, "ami-launch-index"),
            local_hostname: metadata_or_empty(&metadata, "local-hostname"),
            availability_zone: metadata_or_empty(&metadata, "availability-zone"),
            instance_id: metadata_or_empty(&metadata, "instance-id"),
            public_ipv4: metadata_or_empty(&metadata, "public-ipv4"),
            public_hostname: metadata_or_empty(&metadata, "public-hostname"),
            ami_manifest_path: metadata_or_empty(&metadata, "ami-manifest-path"),
            local_ipv4: metadata_or_empty(&metadata, "local-ipv4"),
            hostname: metadata_or_empty(&metadata, "hostname"),
            ami_id: metadata_or_empty(&metadata, "ami-id"),
            instance_type: metadata_or_empty(&metadata, "instance-type"),
        };
        self.config.instance.data_center_info.metadata = Some(m);
        let c = &self.config.eureka;
        let host_entry = if c.use_local_metadata {
            if c.prefer_ip_address {
                "local-ipv4"
            } else {
                "local-hostname"
            }
        } else if c.prefer_ip_address {
            "public-ipv4"
        } else {
            "public-hostname"
        };
        let ip_entry = if c.use_local_metadata {
            "local-ipv4"
        } else {
            "public-ipv4"
        };
        match metadata_value(&metadata, host_entry) {
            Some(v) => {
                self.config.instance.host_name = v;
            },
            None => {},
        }
        match metadata_value(&metadata, ip_entry) {
            Some(v) => {
                self.config.instance.ip_addr = v;
            },
            None => {},
        }
        let updated = self.config.instance.clone();
        match &mut self.instance {
            Some(i) => i.update_config(updated),
            None => {},
        }
    }

    /// The candidates for attempt `retry_attempts` of a request.
    pub fn resolve(&self, retry_attempts: usize) -> (r: Vec<Endpoint>)
        ensures
            endpoint_views(r@) == self.spec_resolver().spec_resolve(retry_attempts as nat),
    {
        self.resolver.resolve_eureka_url(retry_attempts)
    }

    pub fn executor(&self) -> (r: RequestExecutor)
        ensures
            r == self.spec_executor(),
    {
        self.executor
    }

    pub fn registry(&self) -> (r: &RegistryClient)
        ensures
            *r == self.spec_registry(),
    {
        &self.registry
    }

    pub fn registry_mut(&mut self) -> (r: &mut RegistryClient)
        ensures
            *r == old(self).spec_registry(),
            final(self).spec_registry() == *final(r),
            final(self).spec_config() == old(self).spec_config(),
            final(self).spec_instance() == old(self).spec_instance(),
    {
        &mut self.registry
    }

    pub fn instance(&self) -> (r: &Option<InstanceClient>)
        ensures
            *r == self.spec_instance(),
    {
        &self.instance
    }

    pub fn instance_mut(&mut self) -> (r: &mut Option<InstanceClient>)
        ensures
            *r == old(self).spec_instance(),
            final(self).spec_instance() == *final(r),
            final(self).spec_config() == old(self).spec_config(),
            final(self).spec_registry() == old(self).spec_registry(),
    {
        &mut self.instance
    }

    pub fn resolver_mut(&mut self) -> (r: &mut Resolver)
        ensures
            *r == old(self).spec_resolver(),
            final(self).spec_resolver() == *final(r),
            final(self).spec_config() == old(self).spec_config(),
            final(self).spec_registry() == old(self).spec_registry(),
            final(self).spec_instance() == old(self).spec_instance(),
    {
        &mut self.resolver
    }

    pub fn config(&self) -> (r: &BaseConfig)
        ensures
            *r == self.spec_config(),
    {
        &self.config
    }

    pub fn base_url(&self) -> (r: &String)
        ensures
            r@ == self.spec_base_url(),
    {
        &self.base_url
    }
}

} // verus!
