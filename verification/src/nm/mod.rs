//! The network manager's states and security types, shared by the backend.

pub mod connectivity;
pub mod security;
