//! Device states and kinds.

pub use crate::nm::connectivity::{DeviceState, DeviceType};
