use eureka_client::aws::AwsMetadata;
use eureka_client::register::{PortInfo, RegisterData};
use eureka_client::rest::structures::{DcNameType, StatusType};
use eureka_client::rest::{EurekaRestClient, Method};
use std::collections::HashMap;

#[test]
fn paths_are_percent_encoded() {
    let rest = EurekaRestClient::new();
    let r = rest.register("my app", "{}".to_string());
    assert_eq!(r.method, Method::Post);
    assert_eq!(r.uri, "/apps/my%20app");
    assert_eq!(r.body.as_deref(), Some("{}"));
    assert_eq!(rest.deregister("a/b", "i?d").uri, "/apps/a%2Fb/i%3Fd");
    assert_eq!(rest.get_instances_by_vip_address("v#1").uri, "/vips/v%231");
    assert_eq!(rest.get_instances_by_svip_address("s%").uri, "/svips/s%25");
    assert_eq!(rest.get_instances_by_app("plain-name_1.x").uri, "/apps/plain-name_1.x");
}

#[test]
fn operations_methods_and_statuses() {
    let rest = EurekaRestClient::new();
    let hb = rest.send_heartbeat("orders", "h1");
    assert_eq!((hb.method, hb.uri.as_str(), hb.expected_status), (Method::Put, "/apps/orders/h1", 200));
    let all = rest.get_all_instances();
    assert_eq!((all.method, all.uri.as_str(), all.expected_status), (Method::Get, "/apps", 200));
    let one = rest.get_instance_by_app_and_instance("orders", "h1");
    assert_eq!((one.method, one.uri.as_str()), (Method::Get, "/apps/orders/h1"));
    let st = rest.update_status("orders", "h1", &StatusType::OutOfService);
    assert_eq!(st.uri, "/apps/orders/h1/status?value=OUT_OF_SERVICE");
}

#[test]
fn metadata_update_encodes_query() {
    let rest = EurekaRestClient::new();
    let m = rest.update_metadata("orders", "h1", "my key", "a/b#c");
    assert_eq!(m.method, Method::Put);
    assert_eq!(m.uri, "/apps/orders/h1/metadata?my%20key=a/b%23c");
}

#[test]
fn port_info_defaults() {
    assert_eq!(PortInfo::new(None, true), PortInfo { value: 443, enabled: false });
    assert_eq!(PortInfo::new(None, false), PortInfo { value: 80, enabled: false });
    assert_eq!(PortInfo::new(Some(9000), true), PortInfo { value: 9000, enabled: true });
}

#[test]
fn register_data_is_up() {
    let mut meta = HashMap::new();
    meta.insert("k".to_string(), "v".to_string());
    let d = RegisterData::new(
        "host".to_string(),
        "orders".to_string(),
        "10.0.0.1".to_string(),
        "orders-vip".to_string(),
        "orders-svip".to_string(),
        Some(8080),
        None,
        "http://host/".to_string(),
        "http://host/status".to_string(),
        "http://host/health".to_string(),
        DcNameType::MyOwn,
        None,
        None,
        meta,
    );
    assert_eq!(d.status_type, StatusType::Up);
    assert_eq!(d.instance.status, StatusType::Up);
    assert_eq!(d.instance.port.as_ref().unwrap().value(), Some(8080));
    assert_eq!(d.instance.secure_port.value, 443);
    assert_eq!(d.instance.secure_port.value(), None);
    assert_eq!(d.instance.app, "orders");
    assert_eq!(d.app_metadata_type.get("k").map(|s| s.as_str()), Some("v"));
    assert!(d.lease_info.eviction_duration_in_secs.is_none());
}

#[test]
fn metadata_service_urls() {
    let m = AwsMetadata::new(None);
    assert_eq!(m.lookup_metadata_key("ami-id"), "http://169.254.169.254/latest/meta-data/ami-id");
    assert_eq!(
        AwsMetadata::new(Some("meta".to_string())).lookup_instance_identity(),
        "http://meta/latest/dynamic/instance-identity/document"
    );
    assert_eq!(AwsMetadata::vpc_id_key("0e:aa"), "network/interfaces/macs/0e:aa/vpc-id");
    let keys = AwsMetadata::metadata_keys();
    assert_eq!(keys.len(), 9);
    assert_eq!(keys[5], ("availability-zone".to_string(), "placement/availability-zone".to_string()));
}

#[test]
fn absent_metadata_is_dropped() {
    let m = AwsMetadata::new(None);
    let kept = m.fetch_metadata(vec![
        ("ami-id".to_string(), Some("ami-1".to_string())),
        ("mac".to_string(), None),
        ("instance-id".to_string(), Some("i-1".to_string())),
    ]);
    assert_eq!(
        kept,
        vec![("ami-id".to_string(), "ami-1".to_string()), ("instance-id".to_string(), "i-1".to_string())]
    );
    assert!(m.fetch_metadata(vec![]).is_empty());
}
