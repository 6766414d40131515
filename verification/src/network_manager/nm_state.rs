//! The network manager's overall state and connectivity.

pub use crate::nm::connectivity::{Connectivity, NetworkManagerState};
