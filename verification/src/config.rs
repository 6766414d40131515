//! # The service configuration
//!
//! Command line options and their environment variable counterparts are read by the
//! program; this module holds the values, their defaults and their validation.

use vstd::prelude::*;
use crate::errors::CaptivePortalError;
use crate::text::{owned, Ipv4Address};
use crate::utils::{password_ok, password_problem, verify_password};

verus! {

/// The service configuration.
#[derive(Debug, PartialEq)]
pub struct Config {
    /// Wireless network interface to be used by WiFi Connect
    pub interface: Option<String>,
    /// ssid of the captive portal WiFi network
    pub ssid: String,
    /// WPA2 Passphrase of the captive portal WiFi network
    pub passphrase: Option<String>,
    /// Gateway of the captive portal WiFi network
    pub gateway: Ipv4Address,
    /// DHCP range of the captive portal WiFi network
    pub dhcp_range: String,
    /// Listening port of the captive portal web server
    pub listening_port: u16,
    /// Port of the captive portal dns server
    pub dns_port: u16,
    /// Port of the captive portal dhcp server
    pub dhcp_port: u16,
    /// Time in seconds before the portal is opened for re-configuration,
    /// if no connection can be established.
    pub wait_before_reconfigure: u64,
    /// Time in seconds before retrying to connect to a configured WiFi SSID.
    pub retry_in: u64,
    /// Exit after a connection has been established.
    pub quit_after_connected: bool,
    /// Require internet connectivity to deem a connection successful.
    pub internet_connectivity: bool,
    /// Directory of the portal's web files, if not the built-in one
    pub ui_directory: Option<String>,
    /// The SSID of the network last connected to through the portal
    pub wifi_ssid: Option<String>,
    /// The passphrase given for the network last connected to through the portal
    pub wifi_passphrase: Option<String>,
    /// The identity given for the network last connected to through the portal
    pub wifi_identity: Option<String>,
}

/// True iff the configuration holds the documented defaults.
pub open spec fn is_default_config(c: Config) -> bool {
    &&& c.interface is None
    &&& c.ssid@ == "WiFi Connect"@
    &&& c.passphrase is None
    &&& c.gateway == Ipv4Address { a: 192, b: 168, c: 42, d: 1 }
    &&& c.dhcp_range@ == "192.168.42.2,192.168.42.254"@
    &&& c.listening_port == 80
    &&& c.dns_port == 53
    &&& c.dhcp_port == 67
    &&& c.wait_before_reconfigure == 20
    &&& c.retry_in == 360
    &&& !c.quit_after_connected
    &&& !c.internet_connectivity
    &&& c.ui_directory is None
    &&& c.wifi_ssid is None
    &&& c.wifi_passphrase is None
    &&& c.wifi_identity is None
}

impl Default for Config {
    /// The documented defaults: an open portal "WiFi Connect" on 192.168.42.1, web
    /// server on port 80, dns on 53, dhcp on 67, reconfigure after 20 s, retry every 360 s.
    fn default() -> (r: Config)
        ensures
            is_default_config(r),
    {
        Config {
            interface: None,
            ssid: owned("WiFi Connect"),
            passphrase: None,
            gateway: Ipv4Address { a: 192, b: 168, c: 42, d: 1 },
            dhcp_range: owned("192.168.42.2,192.168.42.254"),
            listening_port: 80,
            dns_port: 53,
            dhcp_port: 67,
            wait_before_reconfigure: 20,
            retry_in: 360,
            quit_after_connected: false,
            internet_connectivity: false,
            ui_directory: None,
            wifi_ssid: None,
            wifi_passphrase: None,
            wifi_identity: None,
        }
    }
}

/// True iff the configured portal passphrase (if any, and not empty) is acceptable.
pub open spec fn config_ok(c: Config) -> bool {
    match c.passphrase {
        Some(p) => p@.len() > 0 ==> password_ok(p@),
        None => true,
    }
}

impl Config {
    /// Checks the configuration before the service starts: a non empty portal
    /// passphrase must have an accepted length.
    pub fn validate(&self) -> (r: Result<(), CaptivePortalError>)
        ensures
            r is Ok <==> config_ok(*self),
            r is Err ==> (r matches Err(CaptivePortalError::InvalidSharedKey(m))
                && m@ == password_problem(self.passphrase.unwrap()@)),
    {
        match &self.passphrase {
            Some(p) => {
                if p.as_str().unicode_len() > 0 {
                    verify_password(p.as_str())
                } else {
                    Ok(())
                }
            },
            None => Ok(()),
        }
    }
}

} // verus!
