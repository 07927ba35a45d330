use eureka_client::registry::{group_instances_by_app, RegistryClient};
use eureka_client::rest::structures::{AllApplications, Application, Applications, Instance, StatusType};
use eureka_client::EurekaError;

fn instance(app: &str, host: &str, vip: &str) -> Instance {
    let mut i = Instance::default();
    i.app = app.to_string();
    i.host_name = host.to_string();
    i.vip_address = vip.to_string();
    i.status = StatusType::Up;
    i
}

fn registry(instances: Vec<Instance>) -> AllApplications {
    AllApplications { applications: Applications { application: vec![Application { instance: instances }] } }
}

fn hosts(v: &[Instance]) -> Vec<String> {
    v.iter().map(|i| i.host_name.clone()).collect()
}

#[test]
fn grouping_is_case_insensitive_and_keeps_order() {
    let groups = group_instances_by_app(vec![
        instance("orders", "h1", "v"),
        instance("billing", "h2", "v"),
        instance("ORDERS", "h3", "v"),
        instance("Orders", "h4", "v"),
    ]);
    assert_eq!(groups.len(), 2);
    let orders = groups.iter().find(|g| g.0 == "ORDERS").unwrap();
    assert_eq!(hosts(&orders.1), vec!["h1", "h3", "h4"]);
    let billing = groups.iter().find(|g| g.0 == "BILLING").unwrap();
    assert_eq!(hosts(&billing.1), vec!["h2"]);
}

#[test]
fn grouping_then_flattening_keeps_every_instance() {
    let input = vec![
        instance("a", "h1", "v"),
        instance("b", "h2", "v"),
        instance("a", "h3", "v"),
        instance("c", "h4", "v"),
        instance("b", "h5", "v"),
    ];
    let groups = group_instances_by_app(input);
    let mut flat: Vec<String> = groups.iter().flat_map(|g| hosts(&g.1)).collect();
    flat.sort();
    assert_eq!(flat, vec!["h1", "h2", "h3", "h4", "h5"]);
}

#[test]
fn grouping_empty_list() {
    assert!(group_instances_by_app(vec![]).is_empty());
}

#[test]
fn repeated_fetch_of_same_data_gives_same_answers() {
    let data = || vec![instance("a", "h1", "v1"), instance("b", "h2", "v1"), instance("a", "h3", "v2")];
    let mut first = RegistryClient::new();
    first.fetch_registry(Ok(registry(data()))).unwrap();
    let mut second = RegistryClient::new();
    second.fetch_registry(Ok(registry(data()))).unwrap();
    second.fetch_registry(Ok(registry(data()))).unwrap();
    for app in ["a", "b", "c"] {
        assert_eq!(hosts(&first.get_instances_by_app_id(app)), hosts(&second.get_instances_by_app_id(app)));
    }
    for vip in ["v1", "v2", "v3"] {
        assert_eq!(
            hosts(&first.get_instances_by_vip_address(vip)),
            hosts(&second.get_instances_by_vip_address(vip))
        );
    }
}

#[test]
fn queries_by_app_and_vip() {
    let mut r = RegistryClient::new();
    r.fetch_registry(Ok(registry(vec![
        instance("orders", "h1", "orders-vip"),
        instance("billing", "h2", "billing-vip"),
        instance("orders", "h3", "orders-vip"),
    ])))
    .unwrap();
    assert_eq!(hosts(&r.get_instances_by_app_id("Orders")), vec!["h1", "h3"]);
    assert_eq!(hosts(&r.get_instances_by_vip_address("billing-vip")), vec!["h2"]);
    assert!(r.get_instances_by_vip_address("ORDERS-VIP").is_empty());
    assert_eq!(r.get_instance_by_app_name("orders").unwrap().host_name, "h1");
}

#[test]
fn unknown_names_give_empty_lists() {
    let r = RegistryClient::new();
    assert!(r.get_instances_by_app_id("nope").is_empty());
    assert!(r.get_instances_by_vip_address("nope").is_empty());
    assert!(r.get_instance_by_app_name("nope").is_none());
}

#[test]
fn failed_fetch_keeps_previous_snapshot() {
    let mut r = RegistryClient::new();
    r.fetch_registry(Ok(registry(vec![instance("a", "h1", "v")]))).unwrap();
    let out = r.fetch_registry(Err(EurekaError::Network("refused".to_string())));
    assert!(matches!(out, Err(EurekaError::Network(ref m)) if m == "refused"));
    assert_eq!(hosts(&r.get_instances_by_vip_address("v")), vec!["h1"]);
}

#[test]
fn new_fetch_replaces_both_indexes_together() {
    let mut r = RegistryClient::new();
    r.fetch_registry(Ok(registry(vec![instance("a", "old", "v")]))).unwrap();
    r.fetch_registry(Ok(registry(vec![instance("b", "new", "w")]))).unwrap();
    assert!(r.get_instances_by_app_id("a").is_empty());
    assert!(r.get_instances_by_vip_address("v").is_empty());
    assert_eq!(hosts(&r.get_instances_by_app_id("b")), vec!["new"]);
    assert_eq!(hosts(&r.get_instances_by_vip_address("w")), vec!["new"]);
}

#[test]
fn lookup_by_normalised_key() {
    let mut r = RegistryClient::new();
    r.fetch_registry(Ok(registry(vec![instance("Orders", "h1", "v"), instance("orders", "h2", "v")]))).unwrap();
    assert_eq!(hosts(&r.get_instances_by_app_key("ORDERS")), vec!["h1", "h2"]);
    assert!(r.get_instances_by_app_key("orders").is_empty());
}
