//! # Generic types and methods for network interfaces
//! These are shared by the network backends.

use vstd::prelude::*;
use crate::errors::CaptivePortalError;
use crate::text::str_eq;

verus! {

/// A wifi SSID.
/// According to last standard 802.11-2012 (Section 6.3.11.2.2),
/// a SSID can be 0-32 octets with an unspecified or UTF8 encoding.
pub type SSID = String;

/// An access point as it is presented to the user.
#[derive(Debug, PartialEq)]
pub struct WifiConnection {
    pub ssid: SSID,
    /// The unique hw address of the access point
    pub hw: String,
    /// The wifi mode
    pub security: &'static str,
    /// The signal strength
    pub strength: u8,
    /// The frequency
    pub frequency: u32,
    /// True if this is spawned by the current device
    pub is_own: bool,
}

impl WifiConnection {
    /// A copy of this access point description.
    pub fn duplicate(&self) -> (r: WifiConnection)
        ensures
            r.ssid@ == self.ssid@,
            r.hw@ == self.hw@,
            r.security@ == self.security@,
            r.strength == self.strength,
            r.frequency == self.frequency,
            r.is_own == self.is_own,
    {
        WifiConnection {
            ssid: self.ssid.clone(),
            hw: self.hw.clone(),
            security: self.security,
            strength: self.strength,
            frequency: self.frequency,
            is_own: self.is_own,
        }
    }
}

#[derive(Debug, Copy, Clone, PartialEq, Eq, Structural)]
pub enum WifiConnectionEventType {
    Added,
    Removed,
}

/// An access point appeared or disappeared.
#[derive(Debug, PartialEq)]
pub struct WifiConnectionEvent {
    pub access_point: WifiConnection,
    pub event: WifiConnectionEventType,
}

/// The list of access points known to the portal.
#[derive(Debug, PartialEq)]
pub struct WifiConnections(pub Vec<WifiConnection>);

#[derive(Copy, Clone, Debug, Eq, PartialEq, Structural)]
pub enum ConnectionState {
    Unknown,
    Activating,
    Activated,
    Deactivating,
    Deactivated,
}

/// The connection state for the network manager's numeric code.
pub open spec fn connection_state_of(state: u32) -> ConnectionState {
    if state == 0 {
        ConnectionState::Unknown
    } else if state == 1 {
        ConnectionState::Activating
    } else if state == 2 {
        ConnectionState::Activated
    } else if state == 3 {
        ConnectionState::Deactivating
    } else if state == 4 {
        ConnectionState::Deactivated
    } else {
        ConnectionState::Unknown
    }
}

impl ConnectionState {
    /// Maps the network manager's numeric connection state; undefined codes are `Unknown`.
    pub fn from_code(state: u32) -> (r: ConnectionState)
        ensures
            r == connection_state_of(state),
    {
        match state {
            0 => ConnectionState::Unknown,
            1 => ConnectionState::Activating,
            2 => ConnectionState::Activated,
            3 => ConnectionState::Deactivating,
            4 => ConnectionState::Deactivated,
            _ => ConnectionState::Unknown,
        }
    }
}

/// The connection state.
/// This is mapped to iwd's internal "connected", "disconnected", "connecting", "disconnecting", "roaming" states.
#[derive(Copy, Clone, Debug, PartialEq, Eq, Structural)]
pub enum NetworkManagerState {
    /// Networking state is unknown. This indicates a daemon error that makes it unable to reasonably assess the state.
    Unknown,
    /// Networking is not enabled, the system is being suspended or resumed from suspend.
    Asleep,
    /// There is no active network connection.
    Disconnected,
    /// Network connections are being cleaned up. The applications should tear down their network sessions.
    Disconnecting,
    /// A network connection is being started
    Connecting,
    /// There is only site-wide IPv4 and/or IPv6 connectivity. This means a default route is available,
    /// but the Internet connectivity check did not succeed.
    ConnectedLimited,
    /// There is global IPv4 and/or IPv6 Internet connectivity.
    Connected,
}

/// Represents an active connection.
/// In iwd this is called "known network".
///
/// There can be multiple active connections if multiple network devices (wired, wireless cards)
/// are present.
#[derive(Debug, PartialEq)]
pub struct ActiveConnection {
    /// The bus path to the underlying connection. In iwd this is called "network".
    pub connection_path: String,
    /// The bus path to the active connection. In iwd this is called "known network".
    pub active_connection_path: String,
    pub state: ConnectionState,
}

/// The encryption used on a given WiFi connection or a requested encryption
/// for a new connection.
#[derive(Copy, Clone, Debug, PartialEq, Eq, Structural)]
pub enum Security {
    /// An open network
    NONE,
    /// Do not use WEP for new connections!
    WEP,
    WPA,
    WPA2,
    ENTERPRISE,
}

/// The name of a security mode.
pub open spec fn security_name(s: Security) -> Seq<char> {
    match s {
        Security::NONE => "none"@,
        Security::ENTERPRISE => "enterprise"@,
        Security::WEP => "wep"@,
        Security::WPA | Security::WPA2 => "wpa"@,
    }
}

/// The security mode named by a user supplied mode string, if any.
pub open spec fn security_from_mode(mode: Seq<char>) -> Option<Security> {
    if mode == "enterprise"@ {
        Some(Security::ENTERPRISE)
    } else if mode == "wpa"@ {
        Some(Security::WPA)
    } else if mode == "wpa2"@ {
        Some(Security::WPA2)
    } else if mode == "wep"@ {
        Some(Security::WEP)
    } else if mode == "open"@ || mode == ""@ {
        Some(Security::NONE)
    } else {
        None
    }
}

/// The modes "open" and "" (and only they) name an open network; for them the portal's
/// request parser, too, asks for no key and gives open credentials. "enterprise", "wpa"
/// and "wep" parse to the modes the portal lists under those names, "wpa2" (and only
/// it) to WPA2, and every other mode is refused.
pub proof fn lemma_open_modes(mode: Seq<char>)
    ensures
        (security_from_mode(mode) == Some(Security::NONE)) <==> (mode == "open"@ || mode == ""@),
        (mode == "open"@ || mode == ""@) ==> forall|passphrase: Option<String>, identity: Option<String>|
            #[trigger] crate::nm::security::credentials_spec(passphrase, identity, mode) == Some(
                AccessPointCredentials::Open),
        // A mode other than "open", "" and "wpa2" that parses names the mode it parses to,
        // as the portal lists it.
        (security_from_mode(mode) matches Some(s) && mode != "open"@ && mode != ""@ && mode != "wpa2"@)
            ==> security_name(security_from_mode(mode).unwrap()) == mode,
        // "wpa2" is WPA2, and a mode is an error only if it is none of the six names.
        (security_from_mode(mode) == Some(Security::WPA2)) <==> mode == "wpa2"@,
        security_from_mode(mode) is None <==> !(mode == "enterprise"@ || mode == "wpa"@ || mode == "wpa2"@
            || mode == "wep"@ || mode == "open"@ || mode == ""@),
{
    reveal_strlit("open");
    reveal_strlit("");
    reveal_strlit("enterprise");
    reveal_strlit("wpa");
    reveal_strlit("wpa2");
    reveal_strlit("wep");
    reveal_strlit("none");
    assert("open"@.len() == 4 && ""@.len() == 0 && "enterprise"@.len() == 10);
    assert("wpa"@.len() == 3 && "wpa2"@.len() == 4 && "wep"@.len() == 3 && "none"@.len() == 4);
    assert("open"@ != "wpa2"@) by {
        assert("open"@[0] != "wpa2"@[0]);
    }
    assert("open"@ != "none"@) by {
        assert("open"@[0] != "none"@[0]);
    }
}

impl Security {
    pub fn as_str(&self) -> (r: &'static str)
        ensures
            r@ == security_name(*self),
    {
        match self {
            Security::NONE => "none",
            Security::ENTERPRISE => "enterprise",
            Security::WEP => "wep",
            Security::WPA | Security::WPA2 => "wpa",
        }
    }

}

impl TryFrom<String> for Security {
    type Error = CaptivePortalError;

    /// Parses a mode: "enterprise", "wpa", "wpa2", "wep", "open" or "" (open).
    /// Any other mode is an error.
    fn try_from(mode: String) -> (r: Result<Security, CaptivePortalError>)
        ensures
            security_from_mode(mode@) matches Some(s) ==> r == Ok::<Security, CaptivePortalError>(s),
            // "open" and the empty mode name an open network, and only they do.
            (r == Ok::<Security, CaptivePortalError>(Security::NONE)) <==> (mode@ == "open"@ || mode@ == ""@),
            security_from_mode(mode@) is None ==> (r matches Err(CaptivePortalError::Generic(m))
                && m@ == "Expected an encryption mode. Got: "@ + mode@),
    {
        proof {
            lemma_open_modes(mode@);
        }
        if str_eq(mode.as_str(), "enterprise") {
            Ok(Security::ENTERPRISE)
        } else if str_eq(mode.as_str(), "wpa") {
            Ok(Security::WPA)
        } else if str_eq(mode.as_str(), "wpa2") {
            Ok(Security::WPA2)
        } else if str_eq(mode.as_str(), "wep") {
            Ok(Security::WEP)
        } else if str_eq(mode.as_str(), "open") || str_eq(mode.as_str(), "") {
            Ok(Security::NONE)
        } else {
            Err(CaptivePortalError::Generic(crate::text::concat("Expected an encryption mode. Got: ", mode.as_str())))
        }
    }
}

impl vstd::std_specs::convert::TryFromSpecImpl<String> for Security {
    open spec fn obeys_try_from_spec() -> bool {
        false
    }

    open spec fn try_from_spec(mode: String) -> Result<Security, CaptivePortalError> {
        arbitrary()
    }
}

/// Different encryption mechanisms require different sets of credentials.
#[derive(Debug, PartialEq)]
pub enum AccessPointCredentials {
    Open,
    Wep { passphrase: String },
    Wpa { passphrase: String },
    Enterprise { identity: String, passphrase: String },
}

/// Converts a set of credentials into the [`AccessPointCredentials`] type.
/// An enterprise mode requires an identity.
pub fn credentials_from_data(
    passphrase: String,
    identity: Option<String>,
    mode: Security,
) -> (r: Result<AccessPointCredentials, CaptivePortalError>)
    ensures
        mode == Security::ENTERPRISE ==> match identity {
            Some(id) => r == Ok::<AccessPointCredentials, CaptivePortalError>(
                AccessPointCredentials::Enterprise { identity: id, passphrase }),
            None => r matches Err(CaptivePortalError::NoSharedKeyProvided),
        },
        (mode == Security::WPA || mode == Security::WPA2) ==> r == Ok::<AccessPointCredentials, CaptivePortalError>(
            AccessPointCredentials::Wpa { passphrase }),
        mode == Security::WEP ==> r == Ok::<AccessPointCredentials, CaptivePortalError>(
            AccessPointCredentials::Wep { passphrase }),
        mode == Security::NONE ==> r == Ok::<AccessPointCredentials, CaptivePortalError>(
            AccessPointCredentials::Open),
{
    match mode {
        Security::ENTERPRISE => match identity {
            Some(identity) => Ok(AccessPointCredentials::Enterprise { identity, passphrase }),
            None => Err(CaptivePortalError::NoSharedKeyProvided),
        },
        Security::WPA | Security::WPA2 => Ok(AccessPointCredentials::Wpa { passphrase }),
        Security::WEP => Ok(AccessPointCredentials::Wep { passphrase }),
        Security::NONE => Ok(AccessPointCredentials::Open),
    }
}

} // verus!
