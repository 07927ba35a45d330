use eureka_client::client::StartupStep;
use eureka_client::executor::{AttemptOutcome, ExecutorStep, HttpResponse};
use eureka_client::instance::{classify_heartbeat, LifecycleAction, LifecycleEvent, LifecycleState};
use eureka_client::rest::structures::{AllApplications, Application, Applications, DcNameType, PortData, StatusType};
use eureka_client::rest::{EurekaRestClient, Method};
use eureka_client::{BaseConfig, EurekaClient, EurekaError};

fn orders_config() -> BaseConfig {
    let mut c = BaseConfig::default();
    c.eureka.register_with_eureka = true;
    c.instance.app = "orders".to_string();
    c.instance.vip_address = "orders-vip".to_string();
    c.instance.host_name = "orders-1".to_string();
    c.instance.ip_addr = "10.0.0.7".to_string();
    c.instance.port = Some(PortData::new(8080, true));
    c
}

fn config_error(c: BaseConfig) -> String {
    match EurekaClient::new(c) {
        Err(EurekaError::Configuration(m)) => m,
        _ => panic!("expected a configuration error"),
    }
}

#[test]
fn missing_settings_are_reported() {
    let mut c = orders_config();
    c.instance.app = String::new();
    assert_eq!(config_error(c), "Missing \"instance.app\" config value.");
    let mut c = orders_config();
    c.instance.vip_address = String::new();
    assert_eq!(config_error(c), "Missing \"instance.vipAddress\" config value.");
    let mut c = orders_config();
    c.instance.port = None;
    assert_eq!(config_error(c), "Missing \"instance.port\" config value.");
    let mut c = orders_config();
    c.instance.data_center_info.name = DcNameType::Amazon;
    c.eureka.fetch_metadata = false;
    assert_eq!(config_error(c), "Missing \"instance.dataCenterInfo\" config value.");
}

#[test]
fn nothing_is_required_without_registration() {
    let mut c = BaseConfig::default();
    c.eureka.register_with_eureka = false;
    let client = EurekaClient::new(c).unwrap();
    assert!(client.instance().is_none());
    assert_eq!(client.base_url(), "http://localhost:8761/eureka");
}

#[test]
fn startup_plan_follows_flags() {
    let mut client = EurekaClient::new(orders_config()).unwrap();
    assert_eq!(client.config().instance.status, StatusType::Up);
    let steps = client.start();
    assert_eq!(
        steps,
        vec![StartupStep::Register, StartupStep::StartHeartbeats, StartupStep::StartRegistryFetches, StartupStep::FetchRegistry]
    );
    let l = client.instance().as_ref().unwrap().lifecycle();
    assert_eq!(l.state, LifecycleState::Registering);

    let mut c = orders_config();
    c.instance.data_center_info.name = DcNameType::Amazon;
    c.eureka.wait_for_registry = true;
    c.eureka.register_with_eureka = false;
    let mut client = EurekaClient::new(c).unwrap();
    assert_eq!(
        client.start(),
        vec![StartupStep::FetchMetadata, StartupStep::StartRegistryFetches, StartupStep::WaitForRegistry]
    );
    assert_eq!(client.stop(), LifecycleAction::Nothing);
}

fn one_instance_registry(client: &EurekaClient) -> AllApplications {
    let me = client.instance().as_ref().unwrap().config().clone();
    AllApplications { applications: Applications { application: vec![Application { instance: vec![me] }] } }
}

#[test]
fn make_request_targets_first_instance() {
    let mut client = EurekaClient::new(orders_config()).unwrap();
    let missing = client.make_request("billing", "/x", Method::Get, None);
    assert!(matches!(missing, Err(EurekaError::UnexpectedState(ref m)) if m == "Could not find app billing"));
    let registry = one_instance_registry(&client);
    client.registry_mut().fetch_registry(Ok(registry)).unwrap();
    let req = client.make_request("ORDERS", "//api/items", Method::Post, Some("{}".to_string())).unwrap();
    assert_eq!(req.url, "http://10.0.0.7:8080/api/items");
    assert_eq!(req.method, Method::Post);
    assert_eq!(req.body.as_deref(), Some("{}"));
}

#[test]
fn end_to_end_registration_and_lookup() {
    let mut client = EurekaClient::new(orders_config()).unwrap();
    let steps = client.start();
    assert_eq!(steps[0], StartupStep::Register);
    let executor = client.executor();
    let rest = EurekaRestClient::new();

    // The server accepts the registration.
    let reg = client.instance().as_ref().unwrap().register("{}".to_string());
    let step = executor.next_step(&reg, 0, AttemptOutcome::Response(HttpResponse { status: 204, body: String::new() }));
    let ok = matches!(step, ExecutorStep::Done(Ok(_)));
    let inst = client.instance_mut().as_mut().unwrap();
    assert_eq!(inst.handle(LifecycleEvent::RegisterDone(ok)), LifecycleAction::UpdateStatus);
    assert_eq!(inst.handle(LifecycleEvent::StatusUpdateDone(true)), LifecycleAction::Nothing);

    // The server accepts the first heartbeat.
    assert_eq!(inst.handle(LifecycleEvent::HeartbeatTick), LifecycleAction::Heartbeat);
    let hb = inst.renew();
    let step = executor.next_step(&hb, 0, AttemptOutcome::Response(HttpResponse { status: 200, body: String::new() }));
    let result = match step {
        ExecutorStep::Done(r) => r,
        ExecutorStep::Retry { .. } => panic!("heartbeat accepted"),
    };
    let outcome = classify_heartbeat(&result);
    assert_eq!(inst.handle(LifecycleEvent::HeartbeatDone(outcome)), LifecycleAction::Nothing);
    assert_eq!(inst.lifecycle().state, LifecycleState::Up);

    // One successful fetch cycle returns the registry with the own instance.
    let fetch = rest.get_all_instances();
    assert_eq!(fetch.uri, "/apps");
    let registry = one_instance_registry(&client);
    client.registry_mut().fetch_registry(Ok(registry)).unwrap();
    let found = client.registry().get_instances_by_vip_address("orders-vip");
    assert_eq!(found.len(), 1);
    assert_eq!(found[0].status, StatusType::Up);
    assert_eq!(found[0].app, "orders");
    assert!(client.wait_for_registry_update());
}

#[test]
fn cloud_metadata_enriches_instance() {
    let mut c = orders_config();
    c.instance.data_center_info.name = DcNameType::Amazon;
    let mut client = EurekaClient::new(c).unwrap();
    client.add_instance_metadata(vec![
        ("public-hostname".to_string(), "ec2-1.example.com".to_string()),
        ("public-ipv4".to_string(), "54.0.0.1".to_string()),
        ("instance-id".to_string(), "i-42".to_string()),
        ("availability-zone".to_string(), "us-east-1b".to_string()),
    ]);
    let i = &client.config().instance;
    assert_eq!(i.host_name, "ec2-1.example.com");
    assert_eq!(i.ip_addr, "54.0.0.1");
    let m = i.data_center_info.metadata.as_ref().unwrap();
    assert_eq!(m.instance_id, "i-42");
    assert_eq!(m.availability_zone, "us-east-1b");
    assert_eq!(m.local_ipv4, "");
    assert_eq!(client.instance().as_ref().unwrap().instance_id(), "i-42");
}

#[test]
fn resolve_uses_configured_strategy() {
    let client = EurekaClient::new(orders_config()).unwrap();
    let e = client.resolve(0);
    assert_eq!(e.len(), 1);
    assert_eq!(e[0].url, "http://localhost:8761/eureka");
}
