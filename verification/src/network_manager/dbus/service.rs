//! The network manager's system service: its states and the decisions of starting and
//! stopping it.

use vstd::prelude::*;
use crate::network_manager::errors::NetworkManagerError;
use crate::text::{owned, str_eq};

verus! {

/// The state of a system service unit.
#[derive(Debug, Copy, Clone, Eq, PartialEq, Structural)]
pub enum ServiceState {
    Active,
    Reloading,
    Inactive,
    Failed,
    Activating,
    Deactivating,
}

/// The state a unit's "ActiveState" names.
pub open spec fn service_state_of(s: Seq<char>) -> Option<ServiceState> {
    if s == "active"@ {
        Some(ServiceState::Active)
    } else if s == "reloading"@ {
        Some(ServiceState::Reloading)
    } else if s == "inactive"@ {
        Some(ServiceState::Inactive)
    } else if s == "failed"@ {
        Some(ServiceState::Failed)
    } else if s == "activating"@ {
        Some(ServiceState::Activating)
    } else if s == "deactivating"@ {
        Some(ServiceState::Deactivating)
    } else {
        None
    }
}

impl ServiceState {
    /// Parses a unit's "ActiveState"; other texts are errors.
    pub fn from_str(s: &str) -> (r: Result<ServiceState, NetworkManagerError>)
        ensures
            service_state_of(s@) matches Some(st) ==> r == Ok::<ServiceState, NetworkManagerError>(st),
            service_state_of(s@) is None ==> (r matches Err(NetworkManagerError::Generic(m)) && m@ == "Service"@),
    {
        if str_eq(s, "active") {
            Ok(ServiceState::Active)
        } else if str_eq(s, "reloading") {
            Ok(ServiceState::Reloading)
        } else if str_eq(s, "inactive") {
            Ok(ServiceState::Inactive)
        } else if str_eq(s, "failed") {
            Ok(ServiceState::Failed)
        } else if str_eq(s, "activating") {
            Ok(ServiceState::Activating)
        } else if str_eq(s, "deactivating") {
            Ok(ServiceState::Deactivating)
        } else {
            Err(NetworkManagerError::Generic(owned("Service")))
        }
    }
}

/// What to do to bring the service into a state.
#[derive(Debug, PartialEq)]
pub enum ServiceStep {
    /// The service is in the state already.
    Done(ServiceState),
    /// The service is on its way: wait for the state.
    WaitFor(ServiceState),
    /// Call the unit method ("StartUnit" or "StopUnit"), then wait for the state.
    CallThenWait(&'static str, ServiceState),
}

/// Starting the service: nothing to do when it is active, wait when it is activating,
/// an error when it failed, otherwise start the unit and wait until it is active.
pub fn start_service(state: ServiceState) -> (r: Result<ServiceStep, NetworkManagerError>)
    ensures
        state == ServiceState::Active ==> r matches Ok(ServiceStep::Done(ServiceState::Active)),
        state == ServiceState::Activating ==> r matches Ok(ServiceStep::WaitFor(ServiceState::Active)),
        state == ServiceState::Failed ==> (r matches Err(NetworkManagerError::Generic(m)) && m@ == "Service"@),
        (state == ServiceState::Inactive || state == ServiceState::Reloading || state == ServiceState::Deactivating)
            ==> (r matches Ok(ServiceStep::CallThenWait(m, ServiceState::Active)) && m@ == "StartUnit"@),
{
    match state {
        ServiceState::Active => Ok(ServiceStep::Done(state)),
        ServiceState::Activating => Ok(ServiceStep::WaitFor(ServiceState::Active)),
        ServiceState::Failed => Err(NetworkManagerError::Generic(owned("Service"))),
        _ => Ok(ServiceStep::CallThenWait("StartUnit", ServiceState::Active)),
    }
}

/// Stopping the service: nothing to do when it is inactive, wait when it is deactivating,
/// an error when it failed, otherwise stop the unit and wait until it is inactive.
pub fn stop_service(state: ServiceState) -> (r: Result<ServiceStep, NetworkManagerError>)
    ensures
        state == ServiceState::Inactive ==> r matches Ok(ServiceStep::Done(ServiceState::Inactive)),
        state == ServiceState::Deactivating ==> r matches Ok(ServiceStep::WaitFor(ServiceState::Inactive)),
        state == ServiceState::Failed ==> (r matches Err(NetworkManagerError::Generic(m)) && m@ == ""@),
        (state == ServiceState::Active || state == ServiceState::Reloading || state == ServiceState::Activating)
            ==> (r matches Ok(ServiceStep::CallThenWait(m, ServiceState::Inactive)) && m@ == "StopUnit"@),
{
    match state {
        ServiceState::Inactive => Ok(ServiceStep::Done(state)),
        ServiceState::Deactivating => Ok(ServiceStep::WaitFor(ServiceState::Inactive)),
        ServiceState::Failed => Err(NetworkManagerError::Generic(owned(""))),
        _ => Ok(ServiceStep::CallThenWait("StopUnit", ServiceState::Inactive)),
    }
}

/// A property change of the service unit, as far as the service waits for it.
#[derive(Debug, PartialEq)]
pub struct ServiceSignal {
    pub interface: Option<String>,
    pub member: Option<String>,
    pub path: Option<String>,
    /// The interface whose properties changed
    pub changed_interface: Option<String>,
    /// The new "ActiveState", if it changed
    pub active_state: Option<String>,
}

/// What the headers of a signal tell, checked in order (interface, member, path), each
/// header stopping the check as soon as it is missing (`None`: an error) or differs
/// (`Some(false)`: not the unit's property change); `Some(true)` if all match.
pub open spec fn unit_signal_headers(s: ServiceSignal) -> Option<bool> {
    if s.interface is None {
        None
    } else if s.interface.unwrap()@ != "org.freedesktop.DBus.Properties"@ {
        Some(false)
    } else if s.member is None {
        None
    } else if s.member.unwrap()@ != "PropertiesChanged"@ {
        Some(false)
    } else if s.path is None {
        None
    } else if s.path.unwrap()@ != "/org/freedesktop/systemd1/unit/NetworkManager_2eservice"@ {
        Some(false)
    } else {
        Some(true)
    }
}

/// Whether a received signal tells that the service reached the target state. The
/// headers are checked in order; a missing one is an error, a differing one means that
/// the signal is not the unit's property change and tells nothing.
pub fn check_received_signal(signal: &ServiceSignal, target_state: ServiceState) -> (r: Result<bool, NetworkManagerError>)
    ensures
        unit_signal_headers(*signal) is None ==> (r matches Err(NetworkManagerError::Generic(m)) && m@ == "Service"@),
        unit_signal_headers(*signal) == Some(false) ==> r == Ok::<bool, NetworkManagerError>(false),
        unit_signal_headers(*signal) == Some(true) ==> match signal.changed_interface {
            None => r matches Err(NetworkManagerError::Generic(m)) && m@ == "Service"@,
            Some(ci) => if ci@ != "org.freedesktop.systemd1.Unit"@ {
                r == Ok::<bool, NetworkManagerError>(false)
            } else {
                match signal.active_state {
                    None => r == Ok::<bool, NetworkManagerError>(false),
                    Some(st) => match service_state_of(st@) {
                        Some(s) => r == Ok::<bool, NetworkManagerError>(s == target_state),
                        None => r is Err,
                    },
                }
            },
        },
{
    match &signal.interface {
        Some(i) => {
            if !str_eq(i.as_str(), "org.freedesktop.DBus.Properties") {
                return Ok(false);
            }
        },
        None => return Err(NetworkManagerError::Generic(owned("Service"))),
    }
    match &signal.member {
        Some(m) => {
            if !str_eq(m.as_str(), "PropertiesChanged") {
                return Ok(false);
            }
        },
        None => return Err(NetworkManagerError::Generic(owned("Service"))),
    }
    match &signal.path {
        Some(p) => {
            if !str_eq(p.as_str(), "/org/freedesktop/systemd1/unit/NetworkManager_2eservice") {
                return Ok(false);
            }
        },
        None => return Err(NetworkManagerError::Generic(owned("Service"))),
    }
    let changed = match &signal.changed_interface {
        Some(c) => c,
        None => return Err(NetworkManagerError::Generic(owned("Service"))),
    };
    if !str_eq(changed.as_str(), "org.freedesktop.systemd1.Unit") {
        return Ok(false);
    }
    match &signal.active_state {
        Some(st) => {
            let state = match ServiceState::from_str(st.as_str()) {
                Ok(s) => s,
                Err(e) => return Err(e),
            };
            Ok(state == target_state)
        },
        None => Ok(false),
    }
}

} // verus!
