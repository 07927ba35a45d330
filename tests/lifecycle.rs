use eureka_client::executor::HttpResponse;
use eureka_client::instance::{
    classify_heartbeat, HeartbeatOutcome, InstanceClient, Lifecycle, LifecycleAction, LifecycleEvent,
    LifecycleState,
};
use eureka_client::rest::structures::{AmazonMetadataType, DcNameType, Instance};
use eureka_client::rest::Method;
use eureka_client::EurekaError;

fn up() -> Lifecycle {
    let mut l = Lifecycle::new();
    assert_eq!(l.step(LifecycleEvent::Start), LifecycleAction::Register);
    assert_eq!(l.step(LifecycleEvent::RegisterDone(true)), LifecycleAction::UpdateStatus);
    assert_eq!(l.step(LifecycleEvent::StatusUpdateDone(true)), LifecycleAction::Nothing);
    l
}

#[test]
fn registration_retries_until_success() {
    let mut l = Lifecycle::new();
    assert_eq!(l.step(LifecycleEvent::Start), LifecycleAction::Register);
    for _ in 0..3 {
        assert_eq!(l.step(LifecycleEvent::RegisterDone(false)), LifecycleAction::RegisterAfter(15_000));
        assert_eq!(l.state, LifecycleState::Registering);
    }
    assert_eq!(l.step(LifecycleEvent::RegisterDone(true)), LifecycleAction::UpdateStatus);
    assert_eq!(l.state, LifecycleState::Up);
    assert!(l.running);
    assert_eq!(l.step(LifecycleEvent::StatusUpdateDone(false)), LifecycleAction::UpdateStatusAfter(15_000));
}

#[test]
fn heartbeat_404_reregisters_once() {
    let mut l = up();
    assert_eq!(l.step(LifecycleEvent::HeartbeatTick), LifecycleAction::Heartbeat);
    assert_eq!(
        l.step(LifecycleEvent::HeartbeatDone(HeartbeatOutcome::UnknownInstance)),
        LifecycleAction::Register
    );
    assert_eq!(l.state, LifecycleState::ReRegistering);
    assert_eq!(l.step(LifecycleEvent::RegisterDone(false)), LifecycleAction::Nothing);
    assert_eq!(l.state, LifecycleState::ReRegistering);
    assert_eq!(l.step(LifecycleEvent::HeartbeatTick), LifecycleAction::Register);
    assert_eq!(l.step(LifecycleEvent::RegisterDone(true)), LifecycleAction::Nothing);
    assert_eq!(l.state, LifecycleState::Up);
}

#[test]
fn other_heartbeat_failures_keep_up() {
    let mut l = up();
    assert_eq!(l.step(LifecycleEvent::HeartbeatDone(HeartbeatOutcome::Failed)), LifecycleAction::Nothing);
    assert_eq!(l.state, LifecycleState::Up);
}

#[test]
fn stop_deregisters_and_ends_heartbeats() {
    let mut l = up();
    assert_eq!(l.step(LifecycleEvent::Stop), LifecycleAction::Deregister);
    assert!(!l.running);
    assert_eq!(l.step(LifecycleEvent::HeartbeatTick), LifecycleAction::Nothing);
    assert_eq!(l.step(LifecycleEvent::DeregisterDone), LifecycleAction::Nothing);
    assert_eq!(l.state, LifecycleState::Stopped);
    let mut fresh = Lifecycle::new();
    assert_eq!(fresh.step(LifecycleEvent::Stop), LifecycleAction::Nothing);
    assert_eq!(fresh.state, LifecycleState::Stopped);
}

#[test]
fn heartbeat_results_classified() {
    let ok: Result<HttpResponse, EurekaError> = Ok(HttpResponse { status: 200, body: String::new() });
    assert_eq!(classify_heartbeat(&ok), HeartbeatOutcome::Renewed);
    assert_eq!(classify_heartbeat(&Err(EurekaError::Request(404))), HeartbeatOutcome::UnknownInstance);
    assert_eq!(classify_heartbeat(&Err(EurekaError::Request(500))), HeartbeatOutcome::Failed);
    assert_eq!(classify_heartbeat(&Err(EurekaError::Network("x".to_string()))), HeartbeatOutcome::Failed);
}

#[test]
fn instance_requests_use_instance_id() {
    let mut i = Instance::default();
    i.app = "orders".to_string();
    i.host_name = "host one".to_string();
    let c = InstanceClient::new(i);
    assert_eq!(c.instance_id(), "host one");
    let hb = c.renew();
    assert_eq!(hb.method, Method::Put);
    assert_eq!(hb.uri, "/apps/orders/host%20one");
    assert_eq!(hb.expected_status, 200);
    assert_eq!(c.update_status().uri, "/apps/orders/host%20one/status?value=UP");
    assert_eq!(c.deregister().method, Method::Delete);
    let reg = c.register("{}".to_string());
    assert_eq!(reg.uri, "/apps/orders");
    assert_eq!(reg.expected_status, 204);
}

#[test]
fn instance_id_prefers_explicit_then_cloud() {
    let mut i = Instance::default();
    i.host_name = "h".to_string();
    i.data_center_info.name = DcNameType::Amazon;
    i.data_center_info.metadata = Some(AmazonMetadataType {
        ami_launch_index: String::new(),
        local_hostname: String::new(),
        availability_zone: String::new(),
        instance_id: "i-123".to_string(),
        public_ipv4: String::new(),
        public_hostname: String::new(),
        ami_manifest_path: String::new(),
        local_ipv4: String::new(),
        hostname: String::new(),
        ami_id: String::new(),
        instance_type: String::new(),
    });
    let mut c = InstanceClient::new(i);
    assert!(c.is_amazon_datacenter());
    assert_eq!(c.instance_id(), "i-123");
    let mut j = c.config().clone();
    j.instance_id = Some("explicit".to_string());
    c.update_config(j);
    assert_eq!(c.instance_id(), "explicit");
}
