//! Client side of a REST service-discovery registry: endpoint resolution,
//! the retry/failover request path, the registration lifecycle of the local
//! instance and a snapshot cache of the remote registry.
use vstd::prelude::*;

pub mod aws;
pub mod client;
pub mod executor;
pub mod instance;
pub mod register;
pub mod registry;
pub mod resolver;
pub mod rest;
pub mod url;

pub use client::EurekaClient;
pub use rest::structures::{Instance, PortData, StatusType};

verus! {

pub open spec fn hex_digit(n: nat) -> char {
    if n < 10 {
        crate::url::digit_char(n)
    } else if n == 10 {
        'A'
    } else if n == 11 {
        'B'
    } else if n == 12 {
        'C'
    } else if n == 13 {
        'D'
    } else if n == 14 {
        'E'
    } else {
        'F'
    }
}

/// `%` and the two upper-case hex digits of an ASCII character.
pub open spec fn escaped(c: char) -> Seq<char> {
    let n = (c as u32) as nat;
    seq!['%', hex_digit(n / 16), hex_digit(n % 16)]
}

pub open spec fn all_ascii(s: Seq<char>) -> bool {
    forall|i: int| 0 <= i < s.len() ==> (#[trigger] s[i] as u32) < 128
}

/// Characters that percent-encoding escapes in a query: controls, DEL, space, `"`, `#`, `<`, `>`.
pub open spec fn in_query_set(c: char) -> bool {
    (c as u32) < 0x20 || (c as u32) > 0x7E || c == ' ' || c == '"' || c == '#' || c == '<' || c
        == '>'
}

/// Characters escaped in a path segment: the query set and `` ` ``, `?`, `{`, `}`, `%`, `/`.
pub open spec fn in_path_segment_set(c: char) -> bool {
    in_query_set(c) || c == '`' || c == '?' || c == '{' || c == '}' || c == '%' || c == '/'
}

/// Percent-encoding of an ASCII string with the characters of `set` escaped.
pub open spec fn encode_ascii(s: Seq<char>, set: spec_fn(char) -> bool) -> Seq<char>
    decreases s.len(),
{
    if s.len() == 0 {
        Seq::empty()
    } else {
        encode_ascii(s.drop_last(), set) + (if set(s.last()) {
            escaped(s.last())
        } else {
            seq![s.last()]
        })
    }
}

pub open spec fn path_segment_set() -> spec_fn(char) -> bool {
    |c: char| in_path_segment_set(c)
}

pub open spec fn query_set() -> spec_fn(char) -> bool {
    |c: char| in_query_set(c)
}

/// What percent-encoding a path segment makes of a string.
pub uninterp spec fn path_segment_encoded(s: Seq<char>) -> Seq<char>;

/// What percent-encoding a query component makes of a string.
pub uninterp spec fn query_encoded(s: Seq<char>) -> Seq<char>;

/// Relies on `percent_encoding::utf8_percent_encode` with `PATH_SEGMENT_ENCODE_SET`:
/// every UTF-8 byte outside printable ASCII or in the set becomes `%XX` with
/// upper-case hex digits (`percent_encode_byte`); other characters stay.
#[verifier::external_body]
pub(crate) fn path_segment_encode(value: &str) -> (r: String)
    ensures
        r@ == path_segment_encoded(value@),
        all_ascii(value@) ==> r@ == encode_ascii(value@, path_segment_set()),
{
    percent_encoding::utf8_percent_encode(value, percent_encoding::PATH_SEGMENT_ENCODE_SET).to_string()
}

/// Relies on `percent_encoding::utf8_percent_encode` with `QUERY_ENCODE_SET`:
/// every UTF-8 byte outside printable ASCII or in the set becomes `%XX` with
/// upper-case hex digits; other characters stay.
#[verifier::external_body]
pub(crate) fn query_encode(value: &str) -> (r: String)
    ensures
        r@ == query_encoded(value@),
        all_ascii(value@) ==> r@ == encode_ascii(value@, query_set()),
{
    percent_encoding::utf8_percent_encode(value, percent_encoding::QUERY_ENCODE_SET).to_string()
}

/// Settings of the discovery client. Intervals and delays are milliseconds.
#[derive(Debug)]
pub struct EurekaConfig {
    pub host: String,
    pub port: u16,
    pub heartbeat_interval: usize,
    pub registry_fetch_interval: usize,
    pub max_retries: usize,
    pub request_retry_delay: usize,
    pub fetch_registry: bool,
    pub filter_up_instances: bool,
    pub service_path: String,
    pub ssl: bool,
    pub use_dns: bool,
    pub prefer_same_zone: bool,
    pub cluster_refresh_interval: usize,
    pub fetch_metadata: bool,
    pub register_with_eureka: bool,
    pub use_local_metadata: bool,
    pub prefer_ip_address: bool,
    /// Registry servers to use, in order; when empty, the one at `host`.
    pub service_urls: Vec<String>,
    /// Region whose zones the DNS resolver looks up.
    pub ec2_region: String,
    /// Block startup until the own virtual address shows in the registry.
    pub wait_for_registry: bool,
}

impl EurekaConfig {
    /// The settings a default configuration holds.
    pub open spec fn is_default(&self) -> bool {
        &&& self.host@ == "localhost"@
        &&& self.port == 8761
        &&& self.heartbeat_interval == 30_000
        &&& self.registry_fetch_interval == 30_000
        &&& self.max_retries == 3
        &&& self.request_retry_delay == 500
        &&& self.fetch_registry
        &&& self.filter_up_instances
        &&& self.service_path@ == "/eureka"@
        &&& !self.ssl
        &&& !self.use_dns
        &&& self.prefer_same_zone
        &&& self.cluster_refresh_interval == 300_000
        &&& self.fetch_metadata
        &&& self.register_with_eureka
        &&& !self.use_local_metadata
        &&& !self.prefer_ip_address
        &&& self.service_urls@.len() == 0
        &&& self.ec2_region@ == "us-east-1"@
        &&& !self.wait_for_registry
    }
}

impl Default for EurekaConfig {
    fn default() -> (r: Self)
        ensures
            r.is_default(),
    {
        EurekaConfig {
            host: String::from_str("localhost"),
            port: 8761,
            heartbeat_interval: 30_000,
            registry_fetch_interval: 30_000,
            max_retries: 3,
            request_retry_delay: 500,
            fetch_registry: true,
            filter_up_instances: true,
            service_path: String::from_str("/eureka"),
            ssl: false,
            use_dns: false,
            prefer_same_zone: true,
            cluster_refresh_interval: 300_000,
            fetch_metadata: true,
            register_with_eureka: true,
            use_local_metadata: false,
            prefer_ip_address: false,
            service_urls: Vec::new(),
            ec2_region: String::from_str("us-east-1"),
            wait_for_registry: false,
        }
    }
}

/// The whole configuration: client settings and the local instance document.
#[derive(Debug)]
pub struct BaseConfig {
    pub eureka: EurekaConfig,
    pub instance: Instance,
}

impl Default for BaseConfig {
    fn default() -> (r: Self)
        ensures
            r.eureka.is_default(),
            r.instance.is_default(),
    {
        BaseConfig { eureka: EurekaConfig::default(), instance: Instance::default() }
    }
}

/// Errors of the discovery client.
#[derive(Debug)]
pub enum EurekaError {
    /// The transport failed: connection refused, timeout, no endpoint to try.
    Network(String),
    /// The registry answered with a status the operation does not expect.
    Request(u16),
    /// The registry's answer does not fit what the operation assumed.
    UnexpectedState(String),
    /// A body could not be read into the expected shape.
    ParseError(String),
    /// A required setting is missing; found before any network activity.
    Configuration(String),
}

} // verus!
