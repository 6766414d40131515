//! # The program's state machine
//!
//! Each state carries its required data, no side-effects. The configuration is moved
//! between states. The program loop asks a state for its [`Action`], performs it against
//! the network backend (and the portal) and hands the [`Outcome`] back to [`StateMachine::progress`].

use vstd::prelude::*;
use crate::config::Config;
use crate::errors::CaptivePortalError;
use crate::http_server::WifiConnectionRequest;
use crate::network_interface::{AccessPointCredentials, ConnectionState, NetworkManagerState};
use crate::nm::security::credentials_from_data;
use crate::text::Ipv4Address;

verus! {

/// The program's states.
#[derive(Debug, PartialEq)]
pub enum StateMachine {
    /// Connects to the network backend on the configured interface and enables networking.
    ///
    /// # Transitions:
    /// **Connected** -> If the backend reports a connected state.
    /// **TryReconnect** -> If no connection is active.
    StartUp(Config),
    /// Tries to connect to already known networks.
    ///
    /// # Transitions:
    /// **Connected** -> If a connection could be established.
    /// **ActivatePortal** -> If no connection can be established
    /// **Exit** ->  On ctrl+c
    TryReconnect(Config),
    /// The device is connected, as reported by the backend.
    ///
    /// # Transitions:
    /// **TryReconnect** -> On connection lost (or after the retry time)
    /// **Exit** ->  On ctrl+c, or at once if configured to quit after connecting
    Connected(Config),
    /// Activates a wifi hotspot and portal page.
    ///
    /// # Transitions:
    /// **Connect** -> When the user requests to connect to a wifi access point.
    /// **TryReconnect** -> If the hotspot failed or the portal timed out
    /// **Exit** ->  On ctrl+c
    ActivatePortal(Config),
    /// Tries to connect to the given access point.
    ///
    /// # Transitions:
    /// **Connected** If the connection got activated: first stores the request's ssid,
    /// passphrase and identity in the configuration
    /// **ActivatePortal** If the connection failed
    Connect(Config, WifiConnectionRequest),
    /// Quits the program: shuts down the backend connection.
    Exit,
}

/// What the program loop must do for a state.
#[derive(Debug, PartialEq)]
pub enum Action {
    /// Connect to the backend (on the interface, if given), enable networking and wifi,
    /// and report the backend's state.
    StartBackend { interface: Option<String> },
    /// Enable networking and let the backend connect to a known network, waiting up to
    /// `timeout_secs`; report whether it connected, or ctrl+c.
    AutoConnect { timeout_secs: u64 },
    /// Stop hotspots and wait up to `connectivity_wait_secs` for connectivity (internet
    /// connectivity if required). Unless `quit_after_connected`, then watch until the
    /// state leaves "connected" or `retry_in_secs` pass, or ctrl+c.
    WatchConnection {
        internet_connectivity: bool,
        connectivity_wait_secs: u64,
        quit_after_connected: bool,
        retry_in_secs: u64,
    },
    /// Enable networking, list the access points (scanning if none are known), start a
    /// hotspot with the ssid, passphrase and gateway, giving up after
    /// `hotspot_timeout_secs`, and serve the portal for up to `timeout_secs`.
    OpenPortal {
        ssid: String,
        passphrase: Option<String>,
        gateway: Ipv4Address,
        hotspot_timeout_secs: u64,
        timeout_secs: u64,
    },
    /// Connect to the network the user chose.
    ConnectTo { ssid: String, credentials: AccessPointCredentials, hw: Option<String> },
    /// Close the backend connection.
    Quit,
}

/// What happened when the program loop performed a state's action.
#[derive(Debug, PartialEq)]
pub enum Outcome {
    /// The backend started and reports this state.
    BackendState(NetworkManagerState),
    /// Auto connect ended: whether a connection was established, or `None` on ctrl+c.
    AutoConnected(Option<bool>),
    /// The connection watch ended: with the new state, or `None` on ctrl+c or when
    /// the program was configured to quit after connecting.
    ConnectionWatched(Option<NetworkManagerState>),
    /// The hotspot could not be started (an error or a timeout).
    HotspotFailed,
    /// The portal closed: `None` on ctrl+c, otherwise the user's request (or `None` on
    /// a timeout), or the portal's error.
    PortalClosed(Option<Result<Option<WifiConnectionRequest>, CaptivePortalError>>),
    /// The connection attempt ended: the connection's state, or `None` if it failed.
    ConnectResult(Option<ConnectionState>),
    /// The backend connection is closed.
    Stopped,
}

/// True iff the outcome is one that the state's action can have.
pub open spec fn outcome_fits(s: StateMachine, o: Outcome) -> bool {
    match s {
        StateMachine::StartUp(_) => o is BackendState,
        StateMachine::TryReconnect(_) => o is AutoConnected,
        StateMachine::Connected(_) => o is ConnectionWatched,
        StateMachine::ActivatePortal(_) => o is HotspotFailed || o is PortalClosed,
        StateMachine::Connect(_, _) => o is ConnectResult,
        StateMachine::Exit => o is Stopped,
    }
}

/// The configuration a state carries.
pub open spec fn config_of(s: StateMachine) -> Option<Config> {
    match s {
        StateMachine::StartUp(c) => Some(c),
        StateMachine::TryReconnect(c) => Some(c),
        StateMachine::Connected(c) => Some(c),
        StateMachine::ActivatePortal(c) => Some(c),
        StateMachine::Connect(c, _) => Some(c),
        StateMachine::Exit => None,
    }
}

/// The configuration with the network of the request stored in it.
pub open spec fn with_network(c: Config, req: WifiConnectionRequest) -> Config {
    Config {
        wifi_ssid: Some(req.ssid),
        wifi_passphrase: req.passphrase,
        wifi_identity: req.identity,
        ..c
    }
}

/// The view of an optional string.
pub open spec fn opt_str(s: Option<String>) -> Option<Seq<char>> {
    match s {
        Some(s) => Some(s@),
        None => None,
    }
}

/// A copy of an optional string.
pub fn clone_opt(s: &Option<String>) -> (r: Option<String>)
    ensures
        r == *s,
{
    match s {
        Some(s) => Some(s.clone()),
        None => None,
    }
}

impl StateMachine {
    /// True iff the outcome is one that this state's action can have.
    pub fn fits(&self, outcome: &Outcome) -> (r: bool)
        ensures
            r == outcome_fits(*self, *outcome),
    {
        match (self, outcome) {
            (StateMachine::StartUp(_), Outcome::BackendState(_)) => true,
            (StateMachine::TryReconnect(_), Outcome::AutoConnected(_)) => true,
            (StateMachine::Connected(_), Outcome::ConnectionWatched(_)) => true,
            (StateMachine::ActivatePortal(_), Outcome::HotspotFailed) => true,
            (StateMachine::ActivatePortal(_), Outcome::PortalClosed(_)) => true,
            (StateMachine::Connect(_, _), Outcome::ConnectResult(_)) => true,
            (StateMachine::Exit, Outcome::Stopped) => true,
            _ => false,
        }
    }

    /// The action the program loop performs in this state. Connecting requires the
    /// user's credentials to fit the chosen mode; the request's error otherwise.
    pub fn action(&self) -> (r: Result<Action, CaptivePortalError>)
        ensures
            match *self {
                StateMachine::StartUp(c) => r matches Ok(Action::StartBackend { interface })
                    && opt_str(interface) == opt_str(c.interface),
                StateMachine::TryReconnect(c) => r matches Ok(Action::AutoConnect { timeout_secs })
                    && timeout_secs == c.wait_before_reconfigure,
                StateMachine::Connected(c) => r matches Ok(Action::WatchConnection {
                    internet_connectivity,
                    connectivity_wait_secs,
                    quit_after_connected,
                    retry_in_secs,
                }) && internet_connectivity == c.internet_connectivity && connectivity_wait_secs == 5
                    && quit_after_connected == c.quit_after_connected && retry_in_secs == c.retry_in,
                StateMachine::ActivatePortal(c) => r matches Ok(Action::OpenPortal {
                    ssid,
                    passphrase,
                    gateway,
                    hotspot_timeout_secs,
                    timeout_secs,
                }) && ssid@ == c.ssid@ && opt_str(passphrase) == opt_str(c.passphrase) && gateway
                    == c.gateway && hotspot_timeout_secs == 25 && timeout_secs == c.retry_in,
                StateMachine::Connect(_, req) => {
                    let creds = crate::nm::security::credentials_spec(req.passphrase, req.identity, req.mode@);
                    &&& creds is Some ==> (r matches Ok(Action::ConnectTo { ssid, credentials, hw })
                        && ssid@ == req.ssid@ && opt_str(hw) == opt_str(req.hw)
                        && creds == Some(credentials))
                    &&& creds is None ==> (r matches Err(e)
                        && crate::nm::security::credentials_error(e, req.mode@))
                },
                StateMachine::Exit => r matches Ok(Action::Quit),
            },
    {
        match self {
            StateMachine::StartUp(c) => Ok(Action::StartBackend { interface: clone_opt(&c.interface) }),
            StateMachine::TryReconnect(c) => Ok(Action::AutoConnect { timeout_secs: c.wait_before_reconfigure }),
            StateMachine::Connected(c) => Ok(Action::WatchConnection {
                internet_connectivity: c.internet_connectivity,
                connectivity_wait_secs: 5,
                quit_after_connected: c.quit_after_connected,
                retry_in_secs: c.retry_in,
            }),
            StateMachine::ActivatePortal(c) => Ok(Action::OpenPortal {
                ssid: c.ssid.clone(),
                passphrase: clone_opt(&c.passphrase),
                gateway: c.gateway,
                hotspot_timeout_secs: 25,
                timeout_secs: c.retry_in,
            }),
            StateMachine::Connect(_, req) => {
                let credentials = match credentials_from_data(
                    clone_opt(&req.passphrase),
                    clone_opt(&req.identity),
                    req.mode.as_str(),
                ) {
                    Ok(c) => c,
                    Err(e) => return Err(e),
                };
                Ok(Action::ConnectTo { ssid: req.ssid.clone(), credentials, hw: clone_opt(&req.hw) })
            },
            StateMachine::Exit => Ok(Action::Quit),
        }
    }

    /// The next state after this state's action had the given outcome; `None` after `Exit`.
    pub fn progress(self, outcome: Outcome) -> (r: Result<Option<StateMachine>, CaptivePortalError>)
        requires
            outcome_fits(self, outcome),
        ensures
            match self {
                StateMachine::StartUp(c) => match outcome {
                    Outcome::BackendState(s) => r == Ok::<Option<StateMachine>, CaptivePortalError>(Some(
                        if s == NetworkManagerState::ConnectedLimited || s == NetworkManagerState::Connected {
                            StateMachine::Connected(c)
                        } else {
                            StateMachine::TryReconnect(c)
                        },
                    )),
                    _ => false,
                },
                StateMachine::TryReconnect(c) => match outcome {
                    Outcome::AutoConnected(None) => r == Ok::<Option<StateMachine>, CaptivePortalError>(
                        Some(StateMachine::Exit)),
                    Outcome::AutoConnected(Some(true)) => r == Ok::<Option<StateMachine>, CaptivePortalError>(
                        Some(StateMachine::Connected(c))),
                    Outcome::AutoConnected(Some(false)) => r == Ok::<Option<StateMachine>, CaptivePortalError>(
                        Some(StateMachine::ActivatePortal(c))),
                    _ => false,
                },
                StateMachine::Connected(c) => match outcome {
                    Outcome::ConnectionWatched(w) => r == Ok::<Option<StateMachine>, CaptivePortalError>(
                        Some(if c.quit_after_connected || w is None {
                            StateMachine::Exit
                        } else {
                            StateMachine::TryReconnect(c)
                        }),
                    ),
                    _ => false,
                },
                StateMachine::ActivatePortal(c) => match outcome {
                    Outcome::HotspotFailed => r == Ok::<Option<StateMachine>, CaptivePortalError>(
                        Some(StateMachine::TryReconnect(c))),
                    Outcome::PortalClosed(None) => r == Ok::<Option<StateMachine>, CaptivePortalError>(
                        Some(StateMachine::Exit)),
                    Outcome::PortalClosed(Some(Err(e))) => r == Err::<Option<StateMachine>, CaptivePortalError>(e),
                    Outcome::PortalClosed(Some(Ok(Some(req)))) => r == Ok::<Option<StateMachine>, CaptivePortalError>(
                        Some(StateMachine::Connect(c, req))),
                    Outcome::PortalClosed(Some(Ok(None))) => r == Ok::<Option<StateMachine>, CaptivePortalError>(
                        Some(StateMachine::TryReconnect(c))),
                    _ => false,
                },
                StateMachine::Connect(c, req) => match outcome {
                    Outcome::ConnectResult(res) => r == Ok::<Option<StateMachine>, CaptivePortalError>(
                        Some(if res == Some(ConnectionState::Activated) {
                            StateMachine::Connected(with_network(c, req))
                        } else {
                            StateMachine::ActivatePortal(c)
                        }),
                    ),
                    _ => false,
                },
                StateMachine::Exit => r == Ok::<Option<StateMachine>, CaptivePortalError>(None),
            },
            // The configuration is moved between states unchanged, but for the network
            // the user connected to, which is stored in it.
            r matches Ok(Some(next)) ==> (next is Exit || config_of(next) == config_of(self) || (
            self matches StateMachine::Connect(c, req) && config_of(next) == Some(with_network(c, req)))),
    {
        match self {
            StateMachine::StartUp(config) => match outcome {
                Outcome::BackendState(state) => Ok(Some(match state {
                    NetworkManagerState::ConnectedLimited
                    | NetworkManagerState::Connected => StateMachine::Connected(config),
                    // No active connection
                    _ => StateMachine::TryReconnect(config),
                })),
                _ => Ok(Some(StateMachine::Exit)),
            },
            StateMachine::TryReconnect(config) => match outcome {
                // Ctrl+C
                Outcome::AutoConnected(None) => Ok(Some(StateMachine::Exit)),
                Outcome::AutoConnected(Some(true)) => Ok(Some(StateMachine::Connected(config))),
                _ => Ok(Some(StateMachine::ActivatePortal(config))),
            },
            StateMachine::Connected(config) => {
                if config.quit_after_connected {
                    return Ok(Some(StateMachine::Exit));
                }
                match outcome {
                    // Ctrl+C
                    Outcome::ConnectionWatched(None) => Ok(Some(StateMachine::Exit)),
                    _ => Ok(Some(StateMachine::TryReconnect(config))),
                }
            },
            StateMachine::ActivatePortal(config) => match outcome {
                Outcome::PortalClosed(None) => Ok(Some(StateMachine::Exit)),
                Outcome::PortalClosed(Some(Err(e))) => Err(e),
                Outcome::PortalClosed(Some(Ok(Some(request)))) => Ok(Some(StateMachine::Connect(config, request))),
                _ => Ok(Some(StateMachine::TryReconnect(config))),
            },
            StateMachine::Connect(config, network) => match outcome {
                Outcome::ConnectResult(Some(ConnectionState::Activated)) => {
                    let mut config = config;
                    config.wifi_ssid = Some(network.ssid);
                    config.wifi_passphrase = network.passphrase;
                    config.wifi_identity = network.identity;
                    Ok(Some(StateMachine::Connected(config)))
                },
                _ => Ok(Some(StateMachine::ActivatePortal(config))),
            },
            StateMachine::Exit => Ok(None),
        }
    }
}

} // verus!
