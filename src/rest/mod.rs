//! The registry's REST operations: which method, path and status each one uses.
use crate::{path_segment_encode, path_segment_encoded, query_encode, query_encoded};
use self::structures::StatusType;
use vstd::prelude::*;

pub mod structures;

verus! {

/// HTTP method of a registry operation.
#[derive(Clone, Copy, Debug, PartialEq, Eq, Structural)]
pub enum Method {
    Get,
    Post,
    Put,
    Delete,
}

/// One registry operation: method, path below the base URL, optional body and
/// the status that means success.
#[derive(Debug)]
pub struct EurekaRequestConfig {
    pub method: Method,
    pub uri: String,
    pub body: Option<String>,
    pub expected_status: u16,
}

pub open spec fn app_path(app_id: Seq<char>) -> Seq<char> {
    "/apps/"@ + path_segment_encoded(app_id)
}

pub open spec fn instance_path(app_id: Seq<char>, instance_id: Seq<char>) -> Seq<char> {
    app_path(app_id) + "/"@ + path_segment_encoded(instance_id)
}

/// Builds the requests of the registry's REST protocol.
#[derive(Debug)]
pub struct EurekaRestClient {}

impl EurekaRestClient {
    pub fn new() -> Self {
        EurekaRestClient {  }
    }

    fn app_path(app_id: &str) -> (r: String)
        ensures
            r@ == app_path(app_id@),
    {
        let mut p = String::from_str("/apps/");
        let a = path_segment_encode(app_id);
        p.append(a.as_str());
        p
    }

    fn instance_path(app_id: &str, instance_id: &str) -> (r: String)
        ensures
            r@ == instance_path(app_id@, instance_id@),
    {
        let mut p = Self::app_path(app_id);
        p.append("/");
        let i = path_segment_encode(instance_id);
        p.append(i.as_str());
        p
    }

    /// Registers an instance: `POST /apps/{app}` with the instance document; 204.
    pub fn register(&self, app_id: &str, body: String) -> (r: EurekaRequestConfig)
        ensures
            r.method == Method::Post,
            r.uri@ == app_path(app_id@),
            r.body == Some(body),
            r.expected_status == 204,
    {
        EurekaRequestConfig {
            method: Method::Post,
            uri: Self::app_path(app_id),
            body: Some(body),
            expected_status: 204,
        }
    }

    /// Removes an instance: `DELETE /apps/{app}/{id}`; 200.
    pub fn deregister(&self, app_id: &str, instance_id: &str) -> (r: EurekaRequestConfig)
        ensures
            r.method == Method::Delete,
            r.uri@ == instance_path(app_id@, instance_id@),
            r.body is None,
            r.expected_status == 200,
    {
        EurekaRequestConfig {
            method: Method::Delete,
            uri: Self::instance_path(app_id, instance_id),
            body: None,
            expected_status: 200,
        }
    }

    /// Renews the lease: `PUT /apps/{app}/{id}`; 200, and 404 for an unknown instance.
    pub fn send_heartbeat(&self, app_id: &str, instance_id: &str) -> (r: EurekaRequestConfig)
        ensures
            r.method == Method::Put,
            r.uri@ == instance_path(app_id@, instance_id@),
            r.body is None,
            r.expected_status == 200,
    {
        EurekaRequestConfig {
            method: Method::Put,
            uri: Self::instance_path(app_id, instance_id),
            body: None,
            expected_status: 200,
        }
    }

    /// The full registry: `GET /apps`; 200.
    pub fn get_all_instances(&self) -> (r: EurekaRequestConfig)
        ensures
            r.method == Method::Get,
            r.uri@ == "/apps"@,
            r.body is None,
            r.expected_status == 200,
    {
        EurekaRequestConfig {
            method: Method::Get,
            uri: String::from_str("/apps"),
            body: None,
            expected_status: 200,
        }
    }

    /// One application's instances: `GET /apps/{app}`; 200.
    pub fn get_instances_by_app(&self, app_id: &str) -> (r: EurekaRequestConfig)
        ensures
            r.method == Method::Get,
            r.uri@ == app_path(app_id@),
            r.body is None,
            r.expected_status == 200,
    {
        EurekaRequestConfig {
            method: Method::Get,
            uri: Self::app_path(app_id),
            body: None,
            expected_status: 200,
        }
    }

    /// One instance: `GET /apps/{app}/{id}`; 200.
    pub fn get_instance_by_app_and_instance(&self, app_id: &str, instance_id: &str) -> (r:
        EurekaRequestConfig)
        ensures
            r.method == Method::Get,
            r.uri@ == instance_path(app_id@, instance_id@),
            r.body is None,
            r.expected_status == 200,
    {
        EurekaRequestConfig {
            method: Method::Get,
            uri: Self::instance_path(app_id, instance_id),
            body: None,
            expected_status: 200,
        }
    }

    /// Sets an instance's status: `PUT /apps/{app}/{id}/status?value={STATUS}`; 200.
    pub fn update_status(&self, app_id: &str, instance_id: &str, new_status: &StatusType) -> (r:
        EurekaRequestConfig)
        ensures
            r.method == Method::Put,
            r.uri@ == instance_path(app_id@, instance_id@) + "/status?value="@ + new_status.wire_name(),
            r.body is None,
            r.expected_status == 200,
    {
        let mut uri = Self::instance_path(app_id, instance_id);
        uri.append("/status?value=");
        let status = new_status.to_string();
        uri.append(status.as_str());
        EurekaRequestConfig { method: Method::Put, uri, body: None, expected_status: 200 }
    }

    /// Sets one metadata entry: `PUT /apps/{app}/{id}/metadata?{key}={value}`; 200.
    pub fn update_metadata(&self, app_id: &str, instance_id: &str, key: &str, value: &str) -> (r:
        EurekaRequestConfig)
        ensures
            r.method == Method::Put,
            r.uri@ == instance_path(app_id@, instance_id@) + "/metadata?"@ + query_encoded(key@) + "="@
                + query_encoded(value@),
            r.body is None,
            r.expected_status == 200,
    {
        let mut uri = Self::instance_path(app_id, instance_id);
        uri.append("/metadata?");
        let k = query_encode(key);
        uri.append(k.as_str());
        uri.append("=");
        let v = query_encode(value);
        uri.append(v.as_str());
        EurekaRequestConfig { method: Method::Put, uri, body: None, expected_status: 200 }
    }

    /// Instances under a virtual address: `GET /vips/{vip}`; 200.
    pub fn get_instances_by_vip_address(&self, vip_address: &str) -> (r: EurekaRequestConfig)
        ensures
            r.method == Method::Get,
            r.uri@ == "/vips/"@ + path_segment_encoded(vip_address@),
            r.body is None,
            r.expected_status == 200,
    {
        let mut uri = String::from_str("/vips/");
        let v = path_segment_encode(vip_address);
        uri.append(v.as_str());
        EurekaRequestConfig { method: Method::Get, uri, body: None, expected_status: 200 }
    }

    /// Instances under a secure virtual address: `GET /svips/{svip}`; 200.
    pub fn get_instances_by_svip_address(&self, svip_address: &str) -> (r: EurekaRequestConfig)
        ensures
            r.method == Method::Get,
            r.uri@ == "/svips/"@ + path_segment_encoded(svip_address@),
            r.body is None,
            r.expected_status == 200,
    {
        let mut uri = String::from_str("/svips/");
        let v = path_segment_encode(svip_address);
        uri.append(v.as_str());
        EurekaRequestConfig { method: Method::Get, uri, body: None, expected_status: 200 }
    }
}

} // verus!
