//! The instance document and the wrappers in which the registry returns it.
use std::collections::HashMap;
use vstd::prelude::*;

verus! {

/// Registration status of an instance, as the registry spells it on the wire.
#[derive(Clone, Copy, Debug, PartialEq, Eq, Structural)]
pub enum StatusType {
    Up,
    Down,
    Starting,
    OutOfService,
    Unknown,
}

impl StatusType {
    /// The wire spelling of a status.
    pub open spec fn wire_name(self) -> Seq<char> {
        match self {
            StatusType::Up => "UP"@,
            StatusType::Down => "DOWN"@,
            StatusType::Starting => "STARTING"@,
            StatusType::OutOfService => "OUT_OF_SERVICE"@,
            StatusType::Unknown => "UNKNOWN"@,
        }
    }

    pub fn to_string(&self) -> (r: String)
        ensures
            r@ == self.wire_name(),
    {
        match self {
            StatusType::Up => String::from_str("UP"),
            StatusType::Down => String::from_str("DOWN"),
            StatusType::Starting => String::from_str("STARTING"),
            StatusType::OutOfService => String::from_str("OUT_OF_SERVICE"),
            StatusType::Unknown => String::from_str("UNKNOWN"),
        }
    }
}

/// A port number together with the registry's textual enabled flag.
#[derive(Debug)]
pub struct PortData {
    pub value: u16,
    pub enabled: String,
}

impl Clone for PortData {
    fn clone(&self) -> (r: Self)
        ensures
            r == *self,
    {
        PortData { value: self.value, enabled: self.enabled.clone() }
    }
}

/// The text that the registry uses for a boolean flag.
pub open spec fn flag_text(b: bool) -> Seq<char> {
    if b {
        "true"@
    } else {
        "false"@
    }
}

impl PortData {
    /// The port, if the enabled flag reads `true`.
    pub open spec fn spec_value(self) -> Option<u16> {
        if self.enabled@ == "true"@ {
            Some(self.value)
        } else {
            None
        }
    }

    pub fn new(port: u16, enabled: bool) -> (r: Self)
        ensures
            r.value == port,
            r.enabled@ == flag_text(enabled),
            r.spec_value() == (if enabled { Some(port) } else { None::<u16> }),
    {
        let text = if enabled {
            String::from_str("true")
        } else {
            String::from_str("false")
        };
        proof {
            reveal_strlit("true");
            reveal_strlit("false");
        }
        PortData { value: port, enabled: text }
    }

    pub fn value(&self) -> (r: Option<u16>)
        ensures
            r == self.spec_value(),
    {
        let t = String::from_str("true");
        if self.enabled == t {
            Some(self.value)
        } else {
            None
        }
    }
}

/// Kind of datacenter an instance runs in.
#[derive(Clone, Copy, Debug, PartialEq, Eq, Structural)]
pub enum DcNameType {
    MyOwn,
    Amazon,
}

impl DcNameType {
    pub open spec fn spec_name(self) -> Seq<char> {
        match self {
            DcNameType::MyOwn => "MyOwn"@,
            DcNameType::Amazon => "Amazon"@,
        }
    }

    pub fn to_string(&self) -> (r: String)
        ensures
            r@ == self.spec_name(),
    {
        match self {
            DcNameType::MyOwn => String::from_str("MyOwn"),
            DcNameType::Amazon => String::from_str("Amazon"),
        }
    }
}

/// Cloud metadata of an instance that runs in an Amazon datacenter.
#[derive(Debug)]
pub struct AmazonMetadataType {
    pub ami_launch_index: String,
    pub local_hostname: String,
    pub availability_zone: String,
    pub instance_id: String,
    pub public_ipv4: String,
    pub public_hostname: String,
    pub ami_manifest_path: String,
    pub local_ipv4: String,
    pub hostname: String,
    pub ami_id: String,
    pub instance_type: String,
}

impl Clone for AmazonMetadataType {
    fn clone(&self) -> (r: Self)
        ensures
            r == *self,
    {
        AmazonMetadataType {
            ami_launch_index: self.ami_launch_index.clone(),
            local_hostname: self.local_hostname.clone(),
            availability_zone: self.availability_zone.clone(),
            instance_id: self.instance_id.clone(),
            public_ipv4: self.public_ipv4.clone(),
            public_hostname: self.public_hostname.clone(),
            ami_manifest_path: self.ami_manifest_path.clone(),
            local_ipv4: self.local_ipv4.clone(),
            hostname: self.hostname.clone(),
            ami_id: self.ami_id.clone(),
            instance_type: self.instance_type.clone(),
        }
    }
}

/// Where an instance runs; `metadata` is present exactly when `name` is `Amazon`
/// for an instance that is ready to register.
#[derive(Debug)]
pub struct DataCenterInfo {
    pub class: String,
    pub name: DcNameType,
    pub metadata: Option<AmazonMetadataType>,
}

impl Clone for DataCenterInfo {
    fn clone(&self) -> (r: Self)
        ensures
            r == *self,
    {
        let metadata = match &self.metadata {
            Some(m) => Some(m.clone()),
            None => None,
        };
        DataCenterInfo { class: self.class.clone(), name: self.name, metadata }
    }
}

pub open spec fn default_dc_class() -> Seq<char> {
    "com.netflix.appinfo.InstanceInfo$DefaultDataCenterInfo"@
}

impl Default for DataCenterInfo {
    fn default() -> (r: Self)
        ensures
            r.class@ == default_dc_class(),
            r.name == DcNameType::MyOwn,
            r.metadata is None,
    {
        DataCenterInfo {
            class: String::from_str("com.netflix.appinfo.InstanceInfo$DefaultDataCenterInfo"),
            name: DcNameType::MyOwn,
            metadata: None,
        }
    }
}

/// Lease parameters; without an eviction duration the registry applies its own default.
#[derive(Debug, Clone, Copy, PartialEq, Eq, Structural)]
pub struct LeaseInfo {
    pub eviction_duration_in_secs: Option<usize>,
}

/// One registered copy of an application. The host name doubles as the
/// instance id unless `instance_id` is set.
#[derive(Debug)]
pub struct Instance {
    pub instance_id: Option<String>,
    pub host_name: String,
    pub app: String,
    pub ip_addr: String,
    pub vip_address: String,
    pub secure_vip_address: String,
    pub status: StatusType,
    pub port: Option<PortData>,
    pub secure_port: PortData,
    pub home_page_url: String,
    pub status_page_url: String,
    pub health_check_url: String,
    pub data_center_info: DataCenterInfo,
    pub lease_info: Option<LeaseInfo>,
    pub metadata: Option<HashMap<String, String>>,
}

/// The mathematical content of an [`Instance`].
pub struct InstanceView {
    pub instance_id: Option<Seq<char>>,
    pub host_name: Seq<char>,
    pub app: Seq<char>,
    pub ip_addr: Seq<char>,
    pub vip_address: Seq<char>,
    pub secure_vip_address: Seq<char>,
    pub status: StatusType,
    pub port: Option<PortData>,
    pub secure_port: PortData,
    pub home_page_url: Seq<char>,
    pub status_page_url: Seq<char>,
    pub health_check_url: Seq<char>,
    pub data_center_info: DataCenterInfo,
    pub lease_info: Option<LeaseInfo>,
    pub metadata: Option<Map<String, String>>,
}

impl View for Instance {
    type V = InstanceView;

    open spec fn view(&self) -> InstanceView {
        InstanceView {
            instance_id: match self.instance_id {
                Some(s) => Some(s@),
                None => None,
            },
            host_name: self.host_name@,
            app: self.app@,
            ip_addr: self.ip_addr@,
            vip_address: self.vip_address@,
            secure_vip_address: self.secure_vip_address@,
            status: self.status,
            port: self.port,
            secure_port: self.secure_port,
            home_page_url: self.home_page_url@,
            status_page_url: self.status_page_url@,
            health_check_url: self.health_check_url@,
            data_center_info: self.data_center_info,
            lease_info: self.lease_info,
            metadata: match self.metadata {
                Some(m) => Some(m@),
                None => None,
            },
        }
    }
}

impl Clone for Instance {
    fn clone(&self) -> (r: Self)
        ensures
            r@ == self@,
    {
        let instance_id = match &self.instance_id {
            Some(s) => Some(s.clone()),
            None => None,
        };
        let port = match &self.port {
            Some(p) => Some(p.clone()),
            None => None,
        };
        let metadata = match &self.metadata {
            Some(m) => Some(m.clone()),
            None => None,
        };
        Instance {
            instance_id,
            host_name: self.host_name.clone(),
            app: self.app.clone(),
            ip_addr: self.ip_addr.clone(),
            vip_address: self.vip_address.clone(),
            secure_vip_address: self.secure_vip_address.clone(),
            status: self.status,
            port,
            secure_port: self.secure_port.clone(),
            home_page_url: self.home_page_url.clone(),
            status_page_url: self.status_page_url.clone(),
            health_check_url: self.health_check_url.clone(),
            data_center_info: self.data_center_info.clone(),
            lease_info: self.lease_info,
            metadata,
        }
    }
}

impl Instance {
    /// The fields of a default instance: local, starting, only the secure port
    /// number set (and disabled), names empty.
    pub open spec fn is_default(&self) -> bool {
        &&& self.instance_id is None
        &&& self.host_name@ == "localhost"@
        &&& self.app@.len() == 0
        &&& self.ip_addr@ == "127.0.0.1"@
        &&& self.vip_address@.len() == 0
        &&& self.secure_vip_address@.len() == 0
        &&& self.status == StatusType::Starting
        &&& self.port is None
        &&& self.secure_port.value == 443
        &&& self.secure_port.spec_value() is None
        &&& self.home_page_url@.len() == 0
        &&& self.status_page_url@.len() == 0
        &&& self.health_check_url@.len() == 0
        &&& self.data_center_info.name == DcNameType::MyOwn
        &&& self.data_center_info.metadata is None
        &&& self.lease_info is None
        &&& self.metadata is None
    }
}

impl Default for Instance {
    fn default() -> (r: Self)
        ensures
            r.is_default(),
    {
        Instance {
            instance_id: None,
            host_name: String::from_str("localhost"),
            app: String::new(),
            ip_addr: String::from_str("127.0.0.1"),
            vip_address: String::new(),
            secure_vip_address: String::new(),
            status: StatusType::Starting,
            port: None,
            secure_port: PortData::new(443, false),
            home_page_url: String::new(),
            status_page_url: String::new(),
            health_check_url: String::new(),
            data_center_info: DataCenterInfo::default(),
            lease_info: None,
            metadata: None,
        }
    }
}

/// The body of a registration: the instance document under `instance`.
pub struct Register<'a> {
    pub instance: &'a Instance,
}

/// The full registry as the registry server returns it.
pub struct AllApplications {
    pub applications: Applications,
}

pub struct Applications {
    pub application: Vec<Application>,
}

/// One application of the registry with its instances.
pub struct ApplicationWrapper {
    pub application: Application,
    pub name: String,
}

pub struct Application {
    pub instance: Vec<Instance>,
}

pub struct InstanceWrapper {
    pub instance: Instance,
}

/// The instances of a list of applications, application after application.
pub open spec fn flatten_applications(apps: Seq<Application>) -> Seq<Instance>
    decreases apps.len(),
{
    if apps.len() == 0 {
        Seq::empty()
    } else {
        flatten_applications(apps.drop_last()) + apps.last().instance@
    }
}

impl AllApplications {
    /// Every instance of the registry, application after application, in the
    /// order the registry listed them.
    pub fn into_instances(self) -> (r: Vec<Instance>)
        ensures
            r@ == flatten_applications(self.applications.application@),
    {
        let mut rest = self.applications.application;
        let ghost all = rest@;
        let ghost mut k: int = 0;
        let mut out: Vec<Instance> = Vec::new();
        while rest.len() > 0
            invariant
                0 <= k <= all.len(),
                rest@ == all.subrange(k, all.len() as int),
                out@ == flatten_applications(all.subrange(0, k)),
            decreases rest.len(),
        {
            let mut app = rest.remove(0);
            out.append(&mut app.instance);
            proof {
                assert(all.subrange(0, k + 1).drop_last() =~= all.subrange(0, k));
                k = k + 1;
                assert(rest@ =~= all.subrange(k, all.len() as int));
            }
        }
        proof {
            assert(all.subrange(0, k) =~= all);
        }
        out
    }
}

} // verus!
