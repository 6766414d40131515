//! Connectivity conditions of the network manager backend.

use vstd::prelude::*;
use crate::errors::CaptivePortalError;
use crate::network_interface::NetworkManagerState;

verus! {

/// The backend state for the network manager's numeric state. Local-only connectivity
/// (no default route) counts as disconnected, site connectivity as limited.
pub open spec fn backend_state_of(state: u32) -> NetworkManagerState {
    if state == 10 {
        NetworkManagerState::Asleep
    } else if state == 20 {
        NetworkManagerState::Disconnected
    } else if state == 30 {
        NetworkManagerState::Disconnecting
    } else if state == 40 {
        NetworkManagerState::Connecting
    } else if state == 50 {
        NetworkManagerState::Disconnected
    } else if state == 60 {
        NetworkManagerState::ConnectedLimited
    } else if state == 70 {
        NetworkManagerState::Connected
    } else {
        NetworkManagerState::Unknown
    }
}

/// Maps the network manager's numeric state to the backend state.
pub fn backend_state(state: u32) -> (r: NetworkManagerState)
    ensures
        r == backend_state_of(state),
{
    match state {
        0 => NetworkManagerState::Unknown,
        10 => NetworkManagerState::Asleep,
        20 => NetworkManagerState::Disconnected,
        30 => NetworkManagerState::Disconnecting,
        40 => NetworkManagerState::Connecting,
        // NM_STATE_CONNECTED_LOCAL: only local connectivity, no default route.
        50 => NetworkManagerState::Disconnected,
        // NM_STATE_CONNECTED_SITE
        60 => NetworkManagerState::ConnectedLimited,
        70 => NetworkManagerState::Connected,
        _ => NetworkManagerState::Unknown,
    }
}

/// True iff the state counts as connected: connected, or limited connectivity when
/// internet connectivity is not required.
pub open spec fn is_connected_state(state: NetworkManagerState, internet_connectivity: bool) -> bool {
    state == NetworkManagerState::Connected || (state == NetworkManagerState::ConnectedLimited
        && !internet_connectivity)
}

/// The condition `wait_for_connectivity` waits for.
pub fn connectivity_condition(state: NetworkManagerState, internet_connectivity: bool) -> (r: bool)
    ensures
        r == is_connected_state(state, internet_connectivity),
{
    state == NetworkManagerState::Connected || (state == NetworkManagerState::ConnectedLimited
        && !internet_connectivity)
}

/// The condition `wait_for_connectivity_lost` waits for.
pub fn connectivity_lost_condition(state: NetworkManagerState, internet_connectivity: bool) -> (r: bool)
    ensures
        r == (state != NetworkManagerState::Connected && (state != NetworkManagerState::ConnectedLimited
            || internet_connectivity)),
{
    state != NetworkManagerState::Connected && (state != NetworkManagerState::ConnectedLimited
        || internet_connectivity)
}

/// Losing connectivity is exactly not being connected: the two waiting conditions
/// are each other's negation, for every state and requirement.
pub proof fn lemma_lost_is_not_connected(state: NetworkManagerState, internet_connectivity: bool)
    ensures
        (state != NetworkManagerState::Connected && (state != NetworkManagerState::ConnectedLimited
            || internet_connectivity)) == !is_connected_state(state, internet_connectivity),
{
}

/// The result of waiting for a condition: the last state if the condition holds for it,
/// otherwise the error that the required connectivity was not reached.
pub fn connectivity_result(state: NetworkManagerState, condition_holds: bool) -> (r: Result<
    NetworkManagerState,
    CaptivePortalError,
>)
    ensures
        condition_holds ==> r == Ok::<NetworkManagerState, CaptivePortalError>(state),
        !condition_holds ==> r == Err::<NetworkManagerState, CaptivePortalError>(
            CaptivePortalError::NotRequiredConnectivity(state)),
{
    if condition_holds {
        Ok(state)
    } else {
        Err(CaptivePortalError::NotRequiredConnectivity(state))
    }
}

/// One look at the network manager's state while waiting for connectivity (or, with
/// `waiting_for_loss`, for its loss), `elapsed_ms` after the wait began: `None` to keep
/// waiting, otherwise the result, once the condition holds or `timeout_ms` passed.
pub fn connectivity_wait_step(
    state: NetworkManagerState,
    internet_connectivity: bool,
    waiting_for_loss: bool,
    elapsed_ms: u64,
    timeout_ms: u64,
) -> (r: Option<Result<NetworkManagerState, CaptivePortalError>>)
    ensures
        ({
            let holds = if waiting_for_loss {
                !is_connected_state(state, internet_connectivity)
            } else {
                is_connected_state(state, internet_connectivity)
            };
            &&& holds ==> r == Some(Ok::<NetworkManagerState, CaptivePortalError>(state))
            &&& !holds && elapsed_ms >= timeout_ms ==> r == Some(Err::<NetworkManagerState, CaptivePortalError>(
                CaptivePortalError::NotRequiredConnectivity(state)))
            &&& !holds && elapsed_ms < timeout_ms ==> r is None
        }),
{
    let holds = if waiting_for_loss {
        connectivity_lost_condition(state, internet_connectivity)
    } else {
        connectivity_condition(state, internet_connectivity)
    };
    if holds || elapsed_ms >= timeout_ms {
        Some(connectivity_result(state, holds))
    } else {
        None
    }
}

} // verus!
