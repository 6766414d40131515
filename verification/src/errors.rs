//! # Error type
//!
//! The library uses one wrapping error type. Errors that originate outside of the
//! library (serialisation, I/O, the message bus) carry their message as text.

use vstd::prelude::*;
use crate::network_interface::NetworkManagerState;
use crate::text::{concat, decimal, ipv4_text, owned, u64_to_decimal, Ipv4Address};

verus! {

/// The main error type used throughout this crate.
#[derive(Debug, PartialEq)]
pub enum CaptivePortalError {
    /// Generic errors are very rarely used and only used if no other error type matches
    Generic(String),
    /// Serialisation failed, with the serialiser's message
    Ser(String),
    /// Bytes were not valid UTF-8
    Utf8,
    /// A message bus error: name and message
    DBus(String, String),
    /// IO Error with context: the error's message and the context
    IO(String, String),
    /// An http server error, with its message
    Hyper(String),
    /// A receiving channel was closed
    RecvError,
    IwdError(String),
    DhcpError(String),
    HttpRoutingFailed,
    NotInStationMode,
    NotRequiredConnectivity(NetworkManagerState),
    HotspotFailed,
    NoWifiDeviceFound,
    InvalidSharedKey(String),
    NoSharedKeyProvided,
}

/// The text an error is shown as.
pub open spec fn error_message(e: CaptivePortalError) -> Seq<char> {
    match e {
        CaptivePortalError::Generic(m) => m@,
        CaptivePortalError::Ser(m) => m@,
        CaptivePortalError::Utf8 => "invalid utf-8 sequence"@,
        CaptivePortalError::DBus(name, msg) => "Dbus Error: "@ + name@ + " - "@ + msg@,
        CaptivePortalError::IO(e, context) => context@ + " - "@ + e@,
        CaptivePortalError::Hyper(m) => m@,
        CaptivePortalError::RecvError => "receiving on a closed channel"@,
        CaptivePortalError::IwdError(m) => m@,
        CaptivePortalError::DhcpError(m) => m@,
        CaptivePortalError::HttpRoutingFailed => "Failed to internally route http data"@,
        CaptivePortalError::NotInStationMode => "Scanning not possible: Not in station mode!"@,
        CaptivePortalError::NotRequiredConnectivity(_) => "Connectivity is limited"@,
        CaptivePortalError::HotspotFailed => "Failed to initiate a hotspot"@,
        CaptivePortalError::NoWifiDeviceFound => "No wifi device found on this system"@,
        CaptivePortalError::InvalidSharedKey(m) => "Invalid Passphrase: "@ + m@,
        CaptivePortalError::NoSharedKeyProvided => "Passphrase required!"@,
    }
}

impl CaptivePortalError {
    /// The text the error is shown as.
    pub fn message(&self) -> (r: String)
        ensures
            r@ == error_message(*self),
    {
        match self {
            CaptivePortalError::Generic(m) => m.clone(),
            CaptivePortalError::Ser(m) => m.clone(),
            CaptivePortalError::Utf8 => owned("invalid utf-8 sequence"),
            CaptivePortalError::DBus(name, msg) => {
                let mut r = concat("Dbus Error: ", name.as_str());
                r.append(" - ");
                r.append(msg.as_str());
                r
            },
            CaptivePortalError::IO(e, context) => {
                let mut r = concat(context.as_str(), " - ");
                r.append(e.as_str());
                r
            },
            CaptivePortalError::Hyper(m) => m.clone(),
            CaptivePortalError::RecvError => owned("receiving on a closed channel"),
            CaptivePortalError::IwdError(m) => m.clone(),
            CaptivePortalError::DhcpError(m) => m.clone(),
            CaptivePortalError::HttpRoutingFailed => owned("Failed to internally route http data"),
            CaptivePortalError::NotInStationMode => owned("Scanning not possible: Not in station mode!"),
            CaptivePortalError::NotRequiredConnectivity(_) => owned("Connectivity is limited"),
            CaptivePortalError::HotspotFailed => owned("Failed to initiate a hotspot"),
            CaptivePortalError::NoWifiDeviceFound => owned("No wifi device found on this system"),
            CaptivePortalError::InvalidSharedKey(m) => concat("Invalid Passphrase: ", m.as_str()),
            CaptivePortalError::NoSharedKeyProvided => owned("Passphrase required!"),
        }
    }
}

/// Why binding a server socket failed, as far as the messages tell them apart.
#[derive(Debug, PartialEq)]
pub enum BindErrorKind {
    AddrNotAvailable,
    PermissionDenied,
    AddrInUse,
    /// Any other kind, with its name (as in "ConnectionRefused").
    Other(String),
}

/// The text of an address with its port, as in "192.168.42.1:80".
pub open spec fn socket_text(ip: Ipv4Address, port: u16) -> Seq<char> {
    ipv4_text(ip) + ":"@ + decimal(port as nat)
}

/// The message for a server that could not bind to the address.
pub open spec fn bind_error_message(
    kind: BindErrorKind,
    ip: Ipv4Address,
    port: u16,
    service_name: Seq<char>,
    program: Seq<char>,
) -> Seq<char> {
    match kind {
        BindErrorKind::AddrNotAvailable => "Could not bind to "@ + socket_text(ip, port) + " for "@ + service_name
            + "\nThe gateway address is not assigned to any interface!"@,
        BindErrorKind::PermissionDenied => "You require elevated permissions to bind to port "@ + decimal(port as nat)
            + " for "@ + service_name + ".\nYou may use `sudo setcap CAP_NET_BIND_SERVICE=+eip "@ + program + "`"@,
        BindErrorKind::AddrInUse => "Could not bind to port "@ + decimal(port as nat) + " for "@ + service_name
            + "\nThe port is in use."@,
        BindErrorKind::Other(name) => "Could not bind to "@ + socket_text(ip, port) + " for "@ + service_name
            + "\nThis error happened: "@ + name@,
    }
}

/// The error for a server (`service_name`) that could not bind to the address; the
/// message for missing permissions names the program so that the capability can be set.
pub fn map_to_err(kind: &BindErrorKind, ip: Ipv4Address, port: u16, service_name: &str, program: &str) -> (r:
    CaptivePortalError)
    ensures
        r matches CaptivePortalError::Generic(m) && m@ == bind_error_message(*kind, ip, port, service_name@, program@),
{
    let port_text = u64_to_decimal(port as u64);
    let mut socket = ip.to_text();
    socket.append(":");
    socket.append(port_text.as_str());
    let m = match kind {
        BindErrorKind::AddrNotAvailable => {
            let mut m = concat("Could not bind to ", socket.as_str());
            m.append(" for ");
            m.append(service_name);
            m.append("\nThe gateway address is not assigned to any interface!");
            m
        },
        BindErrorKind::PermissionDenied => {
            let mut m = concat("You require elevated permissions to bind to port ", port_text.as_str());
            m.append(" for ");
            m.append(service_name);
            m.append(".\nYou may use `sudo setcap CAP_NET_BIND_SERVICE=+eip ");
            m.append(program);
            m.append("`");
            m
        },
        BindErrorKind::AddrInUse => {
            let mut m = concat("Could not bind to port ", port_text.as_str());
            m.append(" for ");
            m.append(service_name);
            m.append("\nThe port is in use.");
            m
        },
        BindErrorKind::Other(name) => {
            let mut m = concat("Could not bind to ", socket.as_str());
            m.append(" for ");
            m.append(service_name);
            m.append("\nThis error happened: ");
            m.append(name.as_str());
            m
        },
    };
    CaptivePortalError::Generic(m)
}

} // verus!
