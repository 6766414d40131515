//! # The iwd backend
//! Decisions of the iwd backend: iwd handles scans and states per station device.

pub mod access_points_changed;
pub mod connectivity;
pub mod find_wifi_device;
pub mod station;
