use eureka_client::rest::structures::{AllApplications, Application, Applications, Instance, PortData, StatusType};

fn instance(app: &str, host: &str, vip: &str) -> Instance {
    let mut i = Instance::default();
    i.app = app.to_string();
    i.host_name = host.to_string();
    i.vip_address = vip.to_string();
    i.status = StatusType::Up;
    i.port = Some(PortData::new(8080, true));
    i
}

#[test]
fn port_data_reads_enabled_flag() {
    let on = PortData::new(8080, true);
    assert_eq!(on.enabled, "true");
    assert_eq!(on.value(), Some(8080));
    let off = PortData::new(443, false);
    assert_eq!(off.enabled, "false");
    assert_eq!(off.value(), None);
}

#[test]
fn status_and_datacenter_names() {
    assert_eq!(StatusType::Up.to_string(), "UP");
    assert_eq!(StatusType::OutOfService.to_string(), "OUT_OF_SERVICE");
    assert_eq!(StatusType::Unknown.to_string(), "UNKNOWN");
    assert_eq!(eureka_client::rest::structures::DcNameType::Amazon.to_string(), "Amazon");
}

#[test]
fn default_instance() {
    let i = Instance::default();
    assert_eq!(i.host_name, "localhost");
    assert_eq!(i.ip_addr, "127.0.0.1");
    assert_eq!(i.status, StatusType::Starting);
    assert!(i.port.is_none());
    assert_eq!(i.secure_port.value, 443);
    assert_eq!(i.secure_port.value(), None);
    assert_eq!(
        i.data_center_info.class,
        "com.netflix.appinfo.InstanceInfo$DefaultDataCenterInfo"
    );
}

#[test]
fn all_applications_flatten_in_order() {
    let apps = AllApplications {
        applications: Applications {
            application: vec![
                Application { instance: vec![instance("a", "h1", "v"), instance("a", "h2", "v")] },
                Application { instance: vec![] },
                Application { instance: vec![instance("b", "h3", "w")] },
            ],
        },
    };
    let hosts: Vec<String> = apps.into_instances().into_iter().map(|i| i.host_name).collect();
    assert_eq!(hosts, vec!["h1", "h2", "h3"]);
}

#[test]
fn instance_clone_keeps_fields() {
    let mut i = instance("orders", "h1", "orders-vip");
    let mut m = std::collections::HashMap::new();
    m.insert("k".to_string(), "v".to_string());
    i.metadata = Some(m);
    let c = i.clone();
    assert_eq!(c.app, "orders");
    assert_eq!(c.host_name, "h1");
    assert_eq!(c.metadata.unwrap().get("k").map(|s| s.as_str()), Some("v"));
}
