//! The iwd station states.

use vstd::prelude::*;
use crate::network_interface::NetworkManagerState;
use crate::network_backend::nm::connectivity::is_connected_state;
use crate::text::str_eq;

verus! {

/// The backend state for an iwd station state.
pub open spec fn iwd_state_of(state: Seq<char>) -> NetworkManagerState {
    if state == "roaming"@ || state == "connected"@ {
        NetworkManagerState::Connected
    } else if state == "disconnected"@ {
        NetworkManagerState::Disconnected
    } else if state == "disconnecting"@ {
        NetworkManagerState::Disconnecting
    } else if state == "connecting"@ {
        NetworkManagerState::Connecting
    } else {
        NetworkManagerState::Unknown
    }
}

/// Maps an iwd station state ("connected", "disconnected", "connecting",
/// "disconnecting", "roaming"); other states are `Unknown`.
pub fn iwd_state(state: &str) -> (r: NetworkManagerState)
    ensures
        r == iwd_state_of(state@),
        // A connected or roaming station is connected; no other station state is.
        (r == NetworkManagerState::Connected) <==> (state@ == "connected"@ || state@ == "roaming"@),
{
    proof {
        lemma_iwd_connected_states(state@, false);
    }
    if str_eq(state, "roaming") || str_eq(state, "connected") {
        NetworkManagerState::Connected
    } else if str_eq(state, "disconnected") {
        NetworkManagerState::Disconnected
    } else if str_eq(state, "disconnecting") {
        NetworkManagerState::Disconnecting
    } else if str_eq(state, "connecting") {
        NetworkManagerState::Connecting
    } else {
        NetworkManagerState::Unknown
    }
}

/// A station counts as connected (with or without internet connectivity required)
/// exactly when iwd reports it "connected" or "roaming"; every other station state,
/// known or not, counts as not connected. "disconnected", "connecting" and
/// "disconnecting" (and only they) map to the states of those names.
pub proof fn lemma_iwd_connected_states(state: Seq<char>, internet_connectivity: bool)
    ensures
        (iwd_state_of(state) == NetworkManagerState::Connected) <==> (state == "connected"@ || state == "roaming"@),
        is_connected_state(iwd_state_of(state), internet_connectivity) <==> (state == "connected"@ || state
            == "roaming"@),
        // The other named station states keep their meaning; any other state is unknown.
        (iwd_state_of(state) == NetworkManagerState::Disconnected) <==> state == "disconnected"@,
        (iwd_state_of(state) == NetworkManagerState::Connecting) <==> state == "connecting"@,
        (iwd_state_of(state) == NetworkManagerState::Disconnecting) <==> state == "disconnecting"@,
{
    reveal_strlit("connected");
    reveal_strlit("roaming");
    reveal_strlit("disconnected");
    reveal_strlit("connecting");
    reveal_strlit("disconnecting");
    assert("connected"@.len() == 9 && "roaming"@.len() == 7 && "disconnected"@.len() == 12);
    assert("connecting"@.len() == 10 && "disconnecting"@.len() == 13);
}

} // verus!
