//! # Access point changes
//! A changed access point of the wifi device: its bus path and whether it was added or removed.

use vstd::prelude::*;
use crate::network_interface::WifiConnectionEventType;

verus! {

/// An access point the wifi device gained or lost, by its bus path.
#[derive(Debug, PartialEq)]
pub struct AccessPointChanged {
    pub path: String,
    pub event: WifiConnectionEventType,
}

/// The change for an access point that was added.
pub fn helper_1(access_point: String) -> (r: AccessPointChanged)
    ensures
        r.path == access_point,
        r.event == WifiConnectionEventType::Added,
{
    AccessPointChanged { event: WifiConnectionEventType::Added, path: access_point }
}

/// The change for an access point that was removed.
pub fn helper_2(access_point: String) -> (r: AccessPointChanged)
    ensures
        r.path == access_point,
        r.event == WifiConnectionEventType::Removed,
{
    AccessPointChanged { event: WifiConnectionEventType::Removed, path: access_point }
}

} // verus!
