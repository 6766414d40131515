//! Errors of the network manager client.

use vstd::prelude::*;

verus! {

/// An error of the network manager client.
#[derive(Debug, PartialEq)]
pub enum NetworkManagerError {
    /// A generic failure with its context
    Generic(String),
    /// A rejected pre shared key (passphrase)
    PreSharedKey(String),
    /// The network manager reported a problem
    NetworkManager(String),
    /// A rejected SSID
    Ssid(String),
    /// A message bus error: name and message
    DBus(String, String),
}

impl NetworkManagerError {
    pub fn pre_shared_key(message: String) -> (r: NetworkManagerError)
        ensures
            r == NetworkManagerError::PreSharedKey(message),
    {
        NetworkManagerError::PreSharedKey(message)
    }

    pub fn network_manager(message: String) -> (r: NetworkManagerError)
        ensures
            r == NetworkManagerError::NetworkManager(message),
    {
        NetworkManagerError::NetworkManager(message)
    }

    pub fn ssid(message: String) -> (r: NetworkManagerError)
        ensures
            r == NetworkManagerError::Ssid(message),
    {
        NetworkManagerError::Ssid(message)
    }
}

} // verus!
