//! Connecting to a wifi network: the steps of a connection attempt, from looking for a
//! stored connection to saving or deleting the connection at the end. The caller makes
//! each call to the network manager and hands back what came of it.

use vstd::prelude::*;
use crate::errors::CaptivePortalError;
use crate::network_backend::nm::backend::{NetworkBackend, IN_MEMORY_ONLY, SAVE_TO_DISK_FLAG};
use crate::network_backend::nm::find_connection::{connection_lookup, ConnectionLookup};
use crate::network_backend::nm::wifi_settings::{
    ap_base_settings, credentials_ok, credentials_problem, id_and_uuid, make_arguments_for_ap, make_options_for_ap,
    section1, with_security, WiFiConnectionSettings,
};
use crate::network_interface::{AccessPointCredentials, ActiveConnection, ConnectionState, SSID};
use crate::settings::{SettingsMap, ValueView, VariantMap};

verus! {

/// How long (seconds) an attempt waits while the new active connection is deactivated.
pub const DEACTIVATED_WAIT: u64 = 5;

/// How long (seconds) an attempt waits while the active connection is activating.
pub const ACTIVATING_WAIT: u64 = 30;

/// Where a connection attempt stands.
#[derive(Debug, PartialEq)]
pub enum ConnectPhase {
    /// A stored connection to update is being looked for, to activate on the wifi device
    /// at `device`.
    Looking { ssid: SSID, credentials: AccessPointCredentials, device: String },
    /// A connection is being activated.
    Starting,
    /// Waiting while the active connection is deactivated.
    LeavingDeactivated { connection: String, active: String },
    /// Waiting while the active connection is activating.
    LeavingActivating { connection: String, active: String },
    /// The attempt is over.
    Finished,
}

/// What the caller does next for a connection attempt.
#[derive(Debug, PartialEq)]
pub enum ConnectAction {
    /// Look for a stored wifi connection that has seen the access point with this
    /// hardware address.
    FindByMac(String),
    /// Look for a stored wifi connection to this SSID.
    FindBySsid(SSID),
    /// Update the stored connection with the settings (with the flags), then activate it
    /// on the wifi device at `device`.
    UpdateAndActivate { connection: String, settings: SettingsMap, flags: u32, device: String },
    /// Add a connection with the settings and options and activate it on the wifi device
    /// at `device`.
    AddAndActivate { settings: SettingsMap, options: VariantMap, device: String },
    /// Wait up to `seconds` while the active connection is in `state`, then read its state.
    WaitWhile { active: String, state: ConnectionState, seconds: u64 },
    /// Save the stored connection (with the flags): the attempt succeeded.
    Save { connection: ActiveConnection, flags: u32 },
    /// Delete the stored connection: the attempt failed.
    Delete(String),
    /// The attempt failed with the error.
    Fail(CaptivePortalError),
}

/// What came of the caller's last action.
#[derive(Debug, PartialEq)]
pub enum ConnectEvent {
    /// The stored connection that was found (its path and settings), if any.
    Found(Option<(String, WiFiConnectionSettings)>),
    /// The connection was activated: the paths of the stored and the active connection.
    Started { connection: String, active: String },
    /// The state of the active connection after the wait.
    State(ConnectionState),
}

/// The settings a new or updated connection gets.
pub open spec fn attempt_settings(
    ssid: Seq<char>,
    credentials: AccessPointCredentials,
    old: Option<WiFiConnectionSettings>,
) -> Map<Seq<char>, Map<Seq<char>, ValueView>> {
    with_security(ap_base_settings(ssid, id_and_uuid(old)), credentials)
}

/// True iff `a` adds and activates on the device a connection to `ssid` with the
/// credentials (a temporary one, until it is saved).
pub open spec fn adds(a: ConnectAction, ssid: Seq<char>, credentials: AccessPointCredentials, device: Seq<char>) -> bool {
    a matches ConnectAction::AddAndActivate { settings, options, device: d } && settings@ == attempt_settings(
        ssid,
        credentials,
        None,
    ) && options@ == section1("persist"@, ValueView::Str("volatile"@)) && d@ == device
}

/// True iff `a` reports that the credentials cannot be used.
pub open spec fn fails_on_key(a: ConnectAction, credentials: AccessPointCredentials) -> bool {
    a matches ConnectAction::Fail(CaptivePortalError::InvalidSharedKey(m)) && m@ == credentials_problem(credentials)
}

/// The settings for a connection attempt, or the action that reports that the
/// credentials cannot be used.
fn attempt(ssid: &SSID, credentials: AccessPointCredentials, old: Option<WiFiConnectionSettings>) -> (r: Result<
    SettingsMap,
    ConnectAction,
>)
    ensures
        r is Ok <==> credentials_ok(credentials),
        r matches Ok(s) ==> s@ == attempt_settings(ssid@, credentials, old),
        r matches Err(a) ==> fails_on_key(a, credentials),
{
    match make_arguments_for_ap(ssid, credentials, old) {
        Ok(s) => Ok(s),
        Err(e) => Err(ConnectAction::Fail(e)),
    }
}

impl NetworkBackend {
    /// The start of an attempt to connect the wifi device to `ssid`: look for a stored
    /// connection by the access point's hardware address if it is given, otherwise by
    /// SSID if a connection to the same SSID may be overwritten; otherwise add a new
    /// connection at once. [`connect_step`] takes the attempt on from there.
    pub fn connect_to(
        &self,
        ssid: SSID,
        credentials: AccessPointCredentials,
        hw: Option<String>,
        overwrite_same_ssid_connection: bool,
    ) -> (r: (ConnectPhase, ConnectAction))
        ensures
            match hw {
                Some(h) => (r.0 matches ConnectPhase::Looking { ssid: s, credentials: c, device }
                    && s == ssid && c == credentials && device@ == self.wifi_device_path@)
                    && r.1 == ConnectAction::FindByMac(h),
                None => if overwrite_same_ssid_connection {
                    (r.0 matches ConnectPhase::Looking { ssid: s, credentials: c, device } && s == ssid
                        && c == credentials && device@ == self.wifi_device_path@) && (r.1 matches ConnectAction::FindBySsid(
                        s,
                    ) && s@ == ssid@)
                } else if credentials_ok(credentials) {
                    r.0 == ConnectPhase::Starting && adds(r.1, ssid@, credentials, self.wifi_device_path@)
                } else {
                    r.0 == ConnectPhase::Finished && fails_on_key(r.1, credentials)
                },
            },
    {
        let device = self.wifi_device_path.clone();
        match connection_lookup(hw, overwrite_same_ssid_connection) {
            ConnectionLookup::ByMac(h) => (ConnectPhase::Looking { ssid, credentials, device }, ConnectAction::FindByMac(h)),
            ConnectionLookup::BySsid => {
                let wanted = ssid.clone();
                (ConnectPhase::Looking { ssid, credentials, device }, ConnectAction::FindBySsid(wanted))
            },
            ConnectionLookup::CreateNew => match attempt(&ssid, credentials, None) {
                Ok(settings) => (
                    ConnectPhase::Starting,
                    ConnectAction::AddAndActivate { settings, options: make_options_for_ap(), device },
                ),
                Err(a) => (ConnectPhase::Finished, a),
            },
        }
    }
}

/// How far an attempt has come; each step moves it on.
pub open spec fn phase_rank(p: ConnectPhase) -> int {
    match p {
        ConnectPhase::Looking { .. } => 0,
        ConnectPhase::Starting => 1,
        ConnectPhase::LeavingDeactivated { .. } => 2,
        ConnectPhase::LeavingActivating { .. } => 3,
        ConnectPhase::Finished => 4,
    }
}

/// True iff the event is one the phase waits for.
pub open spec fn expects(phase: ConnectPhase, event: ConnectEvent) -> bool {
    match phase {
        ConnectPhase::Looking { .. } => event is Found,
        ConnectPhase::Starting => event is Started,
        ConnectPhase::LeavingDeactivated { .. } => event is State,
        ConnectPhase::LeavingActivating { .. } => event is State,
        ConnectPhase::Finished => false,
    }
}

/// The next step of a connection attempt:
/// - a stored connection that was found is updated (keeping its id and uuid) in memory
///   and activated; if none was found a new one is added;
/// - once activated, the attempt waits up to five seconds while the active connection is
///   deactivated, then up to thirty seconds while it is activating;
/// - if it is then activated the connection is saved to disk, otherwise it is deleted.
pub fn connect_step(phase: ConnectPhase, event: ConnectEvent) -> (r: (ConnectPhase, ConnectAction))
    requires
        expects(phase, event),
    ensures
        match (phase, event) {
            (ConnectPhase::Looking { ssid, credentials, device }, ConnectEvent::Found(found)) => if !credentials_ok(
                credentials,
            ) {
                r.0 == ConnectPhase::Finished && fails_on_key(r.1, credentials)
            } else {
                r.0 == ConnectPhase::Starting && match found {
                    Some((path, old)) => (r.1 matches ConnectAction::UpdateAndActivate {
                        connection,
                        settings,
                        flags,
                        device: d,
                    } && connection == path && settings@ == attempt_settings(ssid@, credentials, Some(old)) && flags
                        == IN_MEMORY_ONLY && d == device),
                    None => adds(r.1, ssid@, credentials, device@),
                }
            },
            (ConnectPhase::Starting, ConnectEvent::Started { connection, active }) => r.0 == (
            ConnectPhase::LeavingDeactivated { connection, active }) && r.1 == (ConnectAction::WaitWhile {
                active,
                state: ConnectionState::Deactivated,
                seconds: DEACTIVATED_WAIT,
            }),
            (ConnectPhase::LeavingDeactivated { connection, active }, ConnectEvent::State(_)) => r.0 == (
            ConnectPhase::LeavingActivating { connection, active }) && r.1 == (ConnectAction::WaitWhile {
                active,
                state: ConnectionState::Activating,
                seconds: ACTIVATING_WAIT,
            }),
            (ConnectPhase::LeavingActivating { connection, active }, ConnectEvent::State(state)) => r.0
                == ConnectPhase::Finished && if state == ConnectionState::Activated {
                r.1 == (ConnectAction::Save {
                    connection: ActiveConnection {
                        connection_path: connection,
                        active_connection_path: active,
                        state: ConnectionState::Activated,
                    },
                    flags: SAVE_TO_DISK_FLAG,
                })
            } else {
                r.1 == ConnectAction::Delete(connection)
            },
            _ => false,
        },
        // An attempt never goes back: it ends after at most four steps.
        phase_rank(r.0) > phase_rank(phase),
{
    match phase {
        ConnectPhase::Looking { ssid, credentials, device } => match event {
            ConnectEvent::Found(Some((path, old))) => match attempt(&ssid, credentials, Some(old)) {
                Ok(settings) => (
                    ConnectPhase::Starting,
                    ConnectAction::UpdateAndActivate { connection: path, settings, flags: IN_MEMORY_ONLY, device },
                ),
                Err(a) => (ConnectPhase::Finished, a),
            },
            _ => match attempt(&ssid, credentials, None) {
                Ok(settings) => (
                    ConnectPhase::Starting,
                    ConnectAction::AddAndActivate { settings, options: make_options_for_ap(), device },
                ),
                Err(a) => (ConnectPhase::Finished, a),
            },
        },
        ConnectPhase::Starting => match event {
            ConnectEvent::Started { connection, active } => {
                let waiting = active.clone();
                (
                    ConnectPhase::LeavingDeactivated { connection, active },
                    ConnectAction::WaitWhile {
                        active: waiting,
                        state: ConnectionState::Deactivated,
                        seconds: DEACTIVATED_WAIT,
                    },
                )
            },
            _ => (ConnectPhase::Finished, ConnectAction::Delete(String::new())),
        },
        ConnectPhase::LeavingDeactivated { connection, active } => {
            let waiting = active.clone();
            (
                ConnectPhase::LeavingActivating { connection, active },
                ConnectAction::WaitWhile { active: waiting, state: ConnectionState::Activating, seconds: ACTIVATING_WAIT },
            )
        },
        ConnectPhase::LeavingActivating { connection, active } => match event {
            ConnectEvent::State(state) => if state == ConnectionState::Activated {
                (
                    ConnectPhase::Finished,
                    ConnectAction::Save {
                        connection: ActiveConnection {
                            connection_path: connection,
                            active_connection_path: active,
                            state: ConnectionState::Activated,
                        },
                        flags: SAVE_TO_DISK_FLAG,
                    },
                )
            } else {
                (ConnectPhase::Finished, ConnectAction::Delete(connection))
            },
            _ => (ConnectPhase::Finished, ConnectAction::Delete(connection)),
        },
        ConnectPhase::Finished => (ConnectPhase::Finished, ConnectAction::Delete(String::new())),
    }
}

/// One look at an active connection's state while waiting for it to leave `waiting_while`,
/// `elapsed_ms` after the wait began: `None` to keep waiting, otherwise the state it is
/// in, once it left that state or `timeout_ms` passed.
pub fn wait_while_step(
    current: ConnectionState,
    waiting_while: ConnectionState,
    elapsed_ms: u64,
    timeout_ms: u64,
) -> (r: Option<ConnectionState>)
    ensures
        (current == waiting_while && elapsed_ms < timeout_ms) ==> r is None,
        !(current == waiting_while && elapsed_ms < timeout_ms) ==> r == Some(current),
{
    if current == waiting_while && elapsed_ms < timeout_ms {
        None
    } else {
        Some(current)
    }
}

/// The hotspot after its activation wait ended in `state`: running if it got activated,
/// otherwise the hotspot failed.
pub fn hotspot_result(
    state: ConnectionState,
    connection_path: String,
    active_connection_path: String,
) -> (r: Result<ActiveConnection, CaptivePortalError>)
    ensures
        state == ConnectionState::Activated ==> r == Ok::<ActiveConnection, CaptivePortalError>(
            ActiveConnection { connection_path, active_connection_path, state },
        ),
        state != ConnectionState::Activated ==> r == Err::<ActiveConnection, CaptivePortalError>(
            CaptivePortalError::HotspotFailed),
{
    if state == ConnectionState::Activated {
        Ok(ActiveConnection { connection_path, active_connection_path, state })
    } else {
        Err(CaptivePortalError::HotspotFailed)
    }
}

} // verus!
