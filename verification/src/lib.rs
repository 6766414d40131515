//! A captive portal service for wifi configuration: the verified decision logic,
//! data model and encodings. The I/O with the network daemons, the http server
//! and the program loop live outside of this library.

pub mod errors;
pub mod network_interface;
pub mod text;
pub mod sorting;
pub mod utils;
pub mod settings;
pub mod network_manager;
pub mod network_backend;
pub mod nm;
pub mod config;
pub mod http_server;
pub mod state_machine;
pub mod portal;
