//! # Network backends: the network manager and iwd.

pub mod nm;
pub mod iwd;
