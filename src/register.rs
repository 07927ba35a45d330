//! The registration document: the instance with its datacenter, lease and
//! metadata, as the registry expects it on registration.
use crate::rest::structures::{AmazonMetadataType, DataCenterInfo, DcNameType, Instance, LeaseInfo, PortData, StatusType};
use std::collections::HashMap;
use vstd::prelude::*;

verus! {

/// The registry as a whole (carries nothing of its own).
#[derive(Debug, Clone, Copy)]
pub struct Registry {}

/// A port with its enabled flag as a boolean.
#[derive(Debug, Clone, Copy, PartialEq, Eq, Structural)]
pub struct PortInfo {
    pub value: u16,
    pub enabled: bool,
}

/// The port a registration announces: the given one, else the protocol's default.
pub open spec fn port_number(port: Option<u16>, secure: bool) -> u16 {
    match port {
        Some(p) => p,
        None => if secure {
            443u16
        } else {
            80u16
        },
    }
}

impl PortInfo {
    /// A given port is enabled; without one the port is the protocol's
    /// default (443 secure, 80 plain) and disabled.
    pub fn new(port: Option<u16>, secure: bool) -> (r: Self)
        ensures
            r.value == port_number(port, secure),
            r.enabled == port is Some,
    {
        PortInfo {
            value: match port {
                Some(p) => p,
                None => if secure {
                    443
                } else {
                    80
                },
            },
            enabled: port.is_some(),
        }
    }
}

pub open spec fn dc_class(name: DcNameType) -> Seq<char> {
    match name {
        DcNameType::MyOwn => "com.netflix.appinfo.InstanceInfo$DefaultDataCenterInfo"@,
        DcNameType::Amazon => "com.netflix.appinfo.AmazonInfo"@,
    }
}

fn dc_class_text(name: DcNameType) -> (r: String)
    ensures
        r@ == dc_class(name),
{
    match name {
        DcNameType::MyOwn => String::from_str("com.netflix.appinfo.InstanceInfo$DefaultDataCenterInfo"),
        DcNameType::Amazon => String::from_str("com.netflix.appinfo.AmazonInfo"),
    }
}

/// A lease with the registry's default eviction duration.
pub open spec fn default_lease() -> LeaseInfo {
    LeaseInfo { eviction_duration_in_secs: None }
}

/// Everything a registration sends.
#[derive(Debug)]
pub struct RegisterData {
    pub instance: Instance,
    pub data_center_info: DataCenterInfo,
    pub lease_info: LeaseInfo,
    pub dc_name_type: DcNameType,
    pub status_type: StatusType,
    pub amazon_metadata_type: Option<AmazonMetadataType>,
    pub app_metadata_type: HashMap<String, String>,
}

impl RegisterData {
    /// A registration document for an instance that is up, with the default lease.
    pub fn new(
        host_name: String,
        app_name: String,
        ip_addr: String,
        vip_addr: String,
        secure_vip_addr: String,
        port: Option<u16>,
        secure_port: Option<u16>,
        home_page_url: String,
        status_page_url: String,
        health_check_url: String,
        dc_name_type: DcNameType,
        dc_metadata: Option<AmazonMetadataType>,
        amazon_metadata: Option<AmazonMetadataType>,
        metadata: HashMap<String, String>,
    ) -> (r: Self)
        ensures
            r.instance.instance_id is None,
            r.instance.host_name == host_name,
            r.instance.app == app_name,
            r.instance.ip_addr == ip_addr,
            r.instance.vip_address == vip_addr,
            r.instance.secure_vip_address == secure_vip_addr,
            r.instance.status == StatusType::Up,
            (r.instance.port matches Some(p) && p.value == port_number(port, false)
                && p.spec_value() == port),
            r.instance.secure_port.value == port_number(secure_port, true),
            r.instance.secure_port.spec_value() == secure_port,
            r.instance.home_page_url == home_page_url,
            r.instance.status_page_url == status_page_url,
            r.instance.health_check_url == health_check_url,
            r.instance.data_center_info.class@ == dc_class(dc_name_type),
            r.instance.data_center_info.name == dc_name_type,
            r.instance.data_center_info.metadata == dc_metadata,
            r.instance.lease_info == Some(default_lease()),
            (r.instance.metadata matches Some(m) && m@ == metadata@),
            r.data_center_info.class@ == dc_class(dc_name_type),
            r.data_center_info.name == dc_name_type,
            r.data_center_info.metadata == dc_metadata,
            r.lease_info == default_lease(),
            r.dc_name_type == dc_name_type,
            r.status_type == StatusType::Up,
            r.amazon_metadata_type == amazon_metadata,
            r.app_metadata_type@ == metadata@,
    {
        let plain = PortInfo::new(port, false);
        let secure = PortInfo::new(secure_port, true);
        let instance_dc = DataCenterInfo {
            class: dc_class_text(dc_name_type),
            name: dc_name_type,
            metadata: match &dc_metadata {
                Some(m) => Some(m.clone()),
                None => None,
            },
        };
        let instance = Instance {
            instance_id: None,
            host_name,
            app: app_name,
            ip_addr,
            vip_address: vip_addr,
            secure_vip_address: secure_vip_addr,
            status: StatusType::Up,
            port: Some(PortData::new(plain.value, plain.enabled)),
            secure_port: PortData::new(secure.value, secure.enabled),
            home_page_url,
            status_page_url,
            health_check_url,
            data_center_info: instance_dc,
            lease_info: Some(LeaseInfo { eviction_duration_in_secs: None }),
            metadata: Some(metadata.clone()),
        };
        RegisterData {
            instance,
            data_center_info: DataCenterInfo {
                class: dc_class_text(dc_name_type),
                name: dc_name_type,
                metadata: dc_metadata,
            },
            lease_info: LeaseInfo { eviction_duration_in_secs: None },
            dc_name_type,
            status_type: StatusType::Up,
            amazon_metadata_type: amazon_metadata,
            app_metadata_type: metadata,
        }
    }
}

} // verus!
