//! # The Network Manager client library
//!
//! Configures the network manager over its message bus API. This module holds the
//! data model and the decisions of that client; the bus calls are made by the caller.

pub mod dbus;
pub mod errors;
pub mod utils;
pub mod connection;
pub mod device;
pub mod nm;
pub mod nm_state;
