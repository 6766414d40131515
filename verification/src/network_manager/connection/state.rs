//! The state of a connection, as the network manager reports it.

use vstd::prelude::*;

pub use crate::nm::connectivity::ConnectionState;

verus! {

/// The connection state for its numeric code; undefined codes are `Unknown`.
pub open spec fn connection_state_of_i64(state: i64) -> ConnectionState {
    if state == 1 {
        ConnectionState::Activating
    } else if state == 2 {
        ConnectionState::Activated
    } else if state == 3 {
        ConnectionState::Deactivating
    } else if state == 4 {
        ConnectionState::Deactivated
    } else {
        ConnectionState::Unknown
    }
}

/// Maps the numeric connection state.
pub fn connection_state_from_i64(state: i64) -> (r: ConnectionState)
    ensures
        r == connection_state_of_i64(state),
{
    match state {
        1 => ConnectionState::Activating,
        2 => ConnectionState::Activated,
        3 => ConnectionState::Deactivating,
        4 => ConnectionState::Deactivated,
        _ => ConnectionState::Unknown,
    }
}

/// The state of an active connection from its "State" property: `Unknown` if the
/// property could not be read.
pub fn get_connection_state(state: Option<i64>) -> (r: ConnectionState)
    ensures
        r == match state {
            Some(s) => connection_state_of_i64(s),
            None => ConnectionState::Unknown,
        },
{
    match state {
        Some(s) => connection_state_from_i64(s),
        None => ConnectionState::Unknown,
    }
}

} // verus!
