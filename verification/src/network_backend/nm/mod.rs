//! The network manager backend: the data the service keeps about the wifi device and
//! the decisions between the calls to the network manager.

pub mod access_points_changed;
pub mod backend;
pub mod connect;
pub mod connectivity;
pub mod find_connection;
pub mod security;
pub mod wifi_settings;
