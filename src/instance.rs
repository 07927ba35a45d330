//! The registration lifecycle of the local instance, as a state machine: the
//! caller performs each action and reports back what happened.
use crate::executor::HttpResponse;
use crate::rest::structures::{DcNameType, Instance, StatusType};
use crate::rest::{EurekaRequestConfig, EurekaRestClient};
use crate::EurekaError;
use vstd::prelude::*;

verus! {

/// Milliseconds to wait before registering again, or reporting the status again,
/// after a failure.
pub const REGISTRATION_BACKOFF: usize = 15_000;

#[derive(Debug, Clone, Copy, PartialEq, Eq, Structural)]
pub enum LifecycleState {
    Unregistered,
    Registering,
    /// Registered and heartbeating.
    Up,
    /// The registry forgot the instance; a registration is in flight.
    ReRegistering,
    Deregistering,
    Stopped,
}

/// How a heartbeat ended.
#[derive(Debug, Clone, Copy, PartialEq, Eq, Structural)]
pub enum HeartbeatOutcome {
    Renewed,
    /// The registry answered 404: it does not know the instance.
    UnknownInstance,
    /// Any other failure; the next tick tries again.
    Failed,
}

/// What the lifecycle hears about.
#[derive(Debug, Clone, Copy, PartialEq, Eq, Structural)]
pub enum LifecycleEvent {
    Start,
    /// A register call ended; `true` on success.
    RegisterDone(bool),
    /// The call that sets the status to up ended; `true` on success.
    StatusUpdateDone(bool),
    /// The heartbeat interval elapsed.
    HeartbeatTick,
    HeartbeatDone(HeartbeatOutcome),
    Stop,
    DeregisterDone,
}

/// What the caller is to do next.
#[derive(Debug, Clone, Copy, PartialEq, Eq, Structural)]
pub enum LifecycleAction {
    Nothing,
    Register,
    /// Register after waiting this many milliseconds.
    RegisterAfter(usize),
    /// Set the registry status to up.
    UpdateStatus,
    UpdateStatusAfter(usize),
    Heartbeat,
    Deregister,
}

/// The state of the lifecycle: where it stands, whether heartbeats are active,
/// and whether the up status has been reported since the last registration.
#[derive(Debug, Clone, Copy, PartialEq, Eq, Structural)]
pub struct Lifecycle {
    pub state: LifecycleState,
    pub running: bool,
    pub status_reported: bool,
}

impl Lifecycle {
    /// The transition function of the lifecycle.
    pub open spec fn next(self, e: LifecycleEvent) -> (Lifecycle, LifecycleAction) {
        match e {
            LifecycleEvent::Start => if self.state == LifecycleState::Unregistered {
                (Lifecycle { state: LifecycleState::Registering, ..self }, LifecycleAction::Register)
            } else {
                (self, LifecycleAction::Nothing)
            },
            LifecycleEvent::RegisterDone(ok) => if self.state == LifecycleState::Registering {
                if ok {
                    (
                        Lifecycle { state: LifecycleState::Up, running: true, status_reported: false },
                        LifecycleAction::UpdateStatus,
                    )
                } else {
                    (self, LifecycleAction::RegisterAfter(REGISTRATION_BACKOFF))
                }
            } else if self.state == LifecycleState::ReRegistering {
                if ok {
                    (Lifecycle { state: LifecycleState::Up, ..self }, LifecycleAction::Nothing)
                } else {
                    (self, LifecycleAction::Nothing)
                }
            } else {
                (self, LifecycleAction::Nothing)
            },
            LifecycleEvent::StatusUpdateDone(ok) => if self.state == LifecycleState::Up
                && !self.status_reported {
                if ok {
                    (Lifecycle { status_reported: true, ..self }, LifecycleAction::Nothing)
                } else {
                    (self, LifecycleAction::UpdateStatusAfter(REGISTRATION_BACKOFF))
                }
            } else {
                (self, LifecycleAction::Nothing)
            },
            LifecycleEvent::HeartbeatTick => if !self.running {
                (self, LifecycleAction::Nothing)
            } else if self.state == LifecycleState::Up {
                (self, LifecycleAction::Heartbeat)
            } else if self.state == LifecycleState::ReRegistering {
                (self, LifecycleAction::Register)
            } else {
                (self, LifecycleAction::Nothing)
            },
            LifecycleEvent::HeartbeatDone(outcome) => if self.state == LifecycleState::Up
                && outcome == HeartbeatOutcome::UnknownInstance {
                (Lifecycle { state: LifecycleState::ReRegistering, ..self }, LifecycleAction::Register)
            } else {
                (self, LifecycleAction::Nothing)
            },
            LifecycleEvent::Stop => if self.state == LifecycleState::Up || self.state
                == LifecycleState::ReRegistering {
                (
                    Lifecycle { state: LifecycleState::Deregistering, running: false, ..self },
                    LifecycleAction::Deregister,
                )
            } else if self.state == LifecycleState::Deregistering {
                (Lifecycle { running: false, ..self }, LifecycleAction::Nothing)
            } else {
                (
                    Lifecycle { state: LifecycleState::Stopped, running: false, ..self },
                    LifecycleAction::Nothing,
                )
            },
            LifecycleEvent::DeregisterDone => if self.state == LifecycleState::Deregistering {
                (Lifecycle { state: LifecycleState::Stopped, ..self }, LifecycleAction::Nothing)
            } else {
                (self, LifecycleAction::Nothing)
            },
        }
    }

    pub fn new() -> (r: Self)
        ensures
            r.state == LifecycleState::Unregistered,
            !r.running,
            !r.status_reported,
    {
        Lifecycle { state: LifecycleState::Unregistered, running: false, status_reported: false }
    }

    /// Takes one event and says what to do.
    pub fn step(&mut self, e: LifecycleEvent) -> (r: LifecycleAction)
        ensures
            (*final(self), r) == old(self).next(e),
    {
        let s = *self;
        match e {
            LifecycleEvent::Start => {
                if s.state == LifecycleState::Unregistered {
                    self.state = LifecycleState::Registering;
                    LifecycleAction::Register
                } else {
                    LifecycleAction::Nothing
                }
            },
            LifecycleEvent::RegisterDone(ok) => {
                if s.state == LifecycleState::Registering {
                    if ok {
                        *self = Lifecycle {
                            state: LifecycleState::Up,
                            running: true,
                            status_reported: false,
                        };
                        LifecycleAction::UpdateStatus
                    } else {
                        LifecycleAction::RegisterAfter(REGISTRATION_BACKOFF)
                    }
                } else if s.state == LifecycleState::ReRegistering {
                    if ok {
                        self.state = LifecycleState::Up;
                    }
                    LifecycleAction::Nothing
                } else {
                    LifecycleAction::Nothing
                }
            },
            LifecycleEvent::StatusUpdateDone(ok) => {
                if s.state == LifecycleState::Up && !s.status_reported {
                    if ok {
                        self.status_reported = true;
                        LifecycleAction::Nothing
                    } else {
                        LifecycleAction::UpdateStatusAfter(REGISTRATION_BACKOFF)
                    }
                } else {
                    LifecycleAction::Nothing
                }
            },
            LifecycleEvent::HeartbeatTick => {
                if !s.running {
                    LifecycleAction::Nothing
                } else if s.state == LifecycleState::Up {
                    LifecycleAction::Heartbeat
                } else if s.state == LifecycleState::ReRegistering {
                    LifecycleAction::Register
                } else {
                    LifecycleAction::Nothing
                }
            },
            LifecycleEvent::HeartbeatDone(outcome) => {
                if s.state == LifecycleState::Up && outcome == HeartbeatOutcome::UnknownInstance {
                    self.state = LifecycleState::ReRegistering;
                    LifecycleAction::Register
                } else {
                    LifecycleAction::Nothing
                }
            },
            LifecycleEvent::Stop => {
                if s.state == LifecycleState::Up || s.state == LifecycleState::ReRegistering {
                    self.state = LifecycleState::Deregistering;
                    self.running = false;
                    LifecycleAction::Deregister
                } else if s.state == LifecycleState::Deregistering {
                    self.running = false;
                    LifecycleAction::Nothing
                } else {
                    self.state = LifecycleState::Stopped;
                    self.running = false;
                    LifecycleAction::Nothing
                }
            },
            LifecycleEvent::DeregisterDone => {
                if s.state == LifecycleState::Deregistering {
                    self.state = LifecycleState::Stopped;
                }
                LifecycleAction::Nothing
            },
        }
    }
}

/// A heartbeat that the registry answers with "unknown instance" makes the
/// lifecycle issue exactly one register call: while re-registering, no event
/// other than the next heartbeat tick asks for another one, and the state
/// returns to up only through a successful registration.
pub proof fn lemma_reregistration(s: Lifecycle, e: LifecycleEvent)
    ensures
        s.state == LifecycleState::Up ==> s.next(
            LifecycleEvent::HeartbeatDone(HeartbeatOutcome::UnknownInstance),
        ) == (Lifecycle { state: LifecycleState::ReRegistering, ..s }, LifecycleAction::Register),
        s.state == LifecycleState::ReRegistering && e != LifecycleEvent::HeartbeatTick ==> s.next(e).1
            != LifecycleAction::Register,
        s.state == LifecycleState::ReRegistering && s.next(e).0.state == LifecycleState::Up ==> e
            == LifecycleEvent::RegisterDone(true),
{
}

/// How the result of a heartbeat request reads: a 404 means the registry does
/// not know the instance; any other failure is transient.
pub fn classify_heartbeat(result: &Result<HttpResponse, EurekaError>) -> (r: HeartbeatOutcome)
    ensures
        r == (match result {
            Ok(_) => HeartbeatOutcome::Renewed,
            Err(EurekaError::Request(404)) => HeartbeatOutcome::UnknownInstance,
            Err(_) => HeartbeatOutcome::Failed,
        }),
{
    match result {
        Ok(_) => HeartbeatOutcome::Renewed,
        Err(EurekaError::Request(status)) => {
            if *status == 404 {
                HeartbeatOutcome::UnknownInstance
            } else {
                HeartbeatOutcome::Failed
            }
        },
        Err(_) => HeartbeatOutcome::Failed,
    }
}

/// The id under which the registry knows an instance: its explicit id; else,
/// in an Amazon datacenter with cloud metadata, the cloud instance id; else its
/// host name.
pub open spec fn spec_instance_id(i: Instance) -> Seq<char> {
    match i.instance_id {
        Some(id) => id@,
        None => if i.data_center_info.name == DcNameType::Amazon && i.data_center_info.metadata is Some {
            i.data_center_info.metadata.unwrap().instance_id@
        } else {
            i.host_name@
        },
    }
}

/// The local instance and its registration lifecycle.
#[derive(Debug)]
pub struct InstanceClient {
    config: Instance,
    lifecycle: Lifecycle,
    rest: EurekaRestClient,
}

impl InstanceClient {
    pub closed spec fn spec_config(&self) -> Instance {
        self.config
    }

    pub closed spec fn spec_lifecycle(&self) -> Lifecycle {
        self.lifecycle
    }

    pub fn new(config: Instance) -> (r: Self)
        ensures
            r.spec_config() == config,
            r.spec_lifecycle().state == LifecycleState::Unregistered,
            !r.spec_lifecycle().running,
    {
        InstanceClient { config, lifecycle: Lifecycle::new(), rest: EurekaRestClient::new() }
    }

    pub fn config(&self) -> (r: &Instance)
        ensures
            *r == self.spec_config(),
    {
        &self.config
    }

    pub fn lifecycle(&self) -> (r: Lifecycle)
        ensures
            r == self.spec_lifecycle(),
    {
        self.lifecycle
    }

    /// Replaces the instance document, keeping the lifecycle where it is.
    pub fn update_config(&mut self, config: Instance)
        ensures
            final(self).spec_config() == config,
            final(self).spec_lifecycle() == old(self).spec_lifecycle(),
    {
        self.config = config;
    }

    /// Hands one event to the lifecycle.
    pub fn handle(&mut self, e: LifecycleEvent) -> (r: LifecycleAction)
        ensures
            (final(self).spec_lifecycle(), r) == old(self).spec_lifecycle().next(e),
            final(self).spec_config() == old(self).spec_config(),
    {
        self.lifecycle.step(e)
    }

    /// Starts the lifecycle: the first action is a registration.
    pub fn start(&mut self) -> (r: LifecycleAction)
        ensures
            (final(self).spec_lifecycle(), r) == old(self).spec_lifecycle().next(LifecycleEvent::Start),
            final(self).spec_config() == old(self).spec_config(),
    {
        self.lifecycle.step(LifecycleEvent::Start)
    }

    /// Stops heartbeats; a registered instance is then deregistered.
    pub fn stop(&mut self) -> (r: LifecycleAction)
        ensures
            (final(self).spec_lifecycle(), r) == old(self).spec_lifecycle().next(LifecycleEvent::Stop),
            final(self).spec_config() == old(self).spec_config(),
    {
        self.lifecycle.step(LifecycleEvent::Stop)
    }

    pub fn is_amazon_datacenter(&self) -> (r: bool)
        ensures
            r == (self.spec_config().data_center_info.name == DcNameType::Amazon),
    {
        self.config.data_center_info.name == DcNameType::Amazon
    }

    pub fn instance_id(&self) -> (r: String)
        ensures
            r@ == spec_instance_id(self.spec_config()),
    {
        match &self.config.instance_id {
            Some(id) => id.clone(),
            None => {
                if self.is_amazon_datacenter() {
                    match &self.config.data_center_info.metadata {
                        Some(m) => m.instance_id.clone(),
                        None => self.config.host_name.clone(),
                    }
                } else {
                    self.config.host_name.clone()
                }
            },
        }
    }

    /// The register request; `body` is the serialised instance document.
    pub fn register(&self, body: String) -> (r: EurekaRequestConfig)
        ensures
            r.method == crate::rest::Method::Post,
            r.uri@ == crate::rest::app_path(self.spec_config().app@),
            r.body == Some(body),
            r.expected_status == 204,
    {
        self.rest.register(self.config.app.as_str(), body)
    }

    /// The heartbeat request.
    pub fn renew(&self) -> (r: EurekaRequestConfig)
        ensures
            r.method == crate::rest::Method::Put,
            r.uri@ == crate::rest::instance_path(self.spec_config().app@, spec_instance_id(self.spec_config())),
            r.body is None,
            r.expected_status == 200,
    {
        let id = self.instance_id();
        self.rest.send_heartbeat(self.config.app.as_str(), id.as_str())
    }

    /// The request that sets the instance's status to up.
    pub fn update_status(&self) -> (r: EurekaRequestConfig)
        ensures
            r.method == crate::rest::Method::Put,
            r.uri@ == crate::rest::instance_path(self.spec_config().app@, spec_instance_id(self.spec_config()))
                + "/status?value="@ + StatusType::Up.wire_name(),
            r.body is None,
            r.expected_status == 200,
    {
        let id = self.instance_id();
        self.rest.update_status(self.config.app.as_str(), id.as_str(), &StatusType::Up)
    }

    /// The deregister request.
    pub fn deregister(&self) -> (r: EurekaRequestConfig)
        ensures
            r.method == crate::rest::Method::Delete,
            r.uri@ == crate::rest::instance_path(self.spec_config().app@, spec_instance_id(self.spec_config())),
            r.body is None,
            r.expected_status == 200,
    {
        let id = self.instance_id();
        self.rest.deregister(self.config.app.as_str(), id.as_str())
    }
}

} // verus!
