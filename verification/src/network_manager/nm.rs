//! The network manager client handle.

use vstd::prelude::*;
use crate::network_manager::device::Device;
use crate::nm::connectivity::{connectivity_of, nm_state_of, Connectivity, DeviceType, NetworkManagerState};

verus! {

/// The method timeout (in seconds) used when none is configured.
pub const DEFAULT_METHOD_TIMEOUT: u64 = 15;

/// A client of the network manager: the timeout for its method calls, which is also how
/// long it waits for connections and devices to reach a state.
#[derive(Copy, Clone, Debug, PartialEq, Eq, Structural)]
pub struct NetworkManager {
    method_timeout: u64,
}

/// The devices of the given kind, in their order.
pub open spec fn devices_of_type(s: Seq<Device>, t: DeviceType) -> Seq<Device>
    decreases s.len(),
{
    if s.len() == 0 {
        Seq::empty()
    } else {
        (if s[0].device_type_view() == t {
            seq![s[0]]
        } else {
            Seq::empty()
        }) + devices_of_type(s.drop_first(), t)
    }
}

/// The devices of a kind, in their order.
fn filter_devices(devices: Vec<Device>, t: DeviceType) -> (r: Vec<Device>)
    ensures
        r@ == devices_of_type(devices@, t),
{
    let ghost orig = devices@;
    let mut devices = devices;
    let mut out: Vec<Device> = Vec::new();
    while devices.len() > 0
        invariant
            out@ + devices_of_type(devices@, t) == devices_of_type(orig, t),
        decreases devices@.len(),
    {
        let ghost before = devices@;
        let d = devices.remove(0);
        assert(before.drop_first() =~= devices@);
        if d.device_type() == &t {
            out.push(d);
            assert(out@ + devices_of_type(devices@, t) =~= devices_of_type(orig, t));
        } else {
            assert(out@ + devices_of_type(devices@, t) =~= devices_of_type(orig, t));
        }
    }
    assert(out@ =~= devices_of_type(orig, t));
    out
}

impl NetworkManager {
    /// A client with the default method timeout.
    pub fn new() -> (r: Self)
        ensures
            r.timeout_view() == DEFAULT_METHOD_TIMEOUT,
    {
        NetworkManager { method_timeout: DEFAULT_METHOD_TIMEOUT }
    }

    /// A client with the given method timeout (seconds).
    pub fn with_method_timeout(method_timeout: u64) -> (r: Self)
        ensures
            r.timeout_view() == method_timeout,
    {
        NetworkManager { method_timeout }
    }

    pub closed spec fn timeout_view(&self) -> u64 {
        self.method_timeout
    }

    /// The method timeout in seconds.
    pub fn method_timeout(&self) -> (r: u64)
        ensures
            r == self.timeout_view(),
    {
        self.method_timeout
    }

    /// The network manager's state, from the number its "state" method returned.
    pub fn get_state(&self, state: u32) -> (r: NetworkManagerState)
        ensures
            r == nm_state_of(state),
    {
        NetworkManagerState::from_code(state)
    }

    /// The connectivity, from the number the "CheckConnectivity" method returned.
    pub fn check_connectivity(&self, connectivity: u32) -> (r: Connectivity)
        ensures
            r == connectivity_of(connectivity),
    {
        Connectivity::from_code(connectivity)
    }

    /// Convenience method to only keep wifi devices
    pub fn get_wifi_devices(&self, devices: Vec<Device>) -> (r: Vec<Device>)
        ensures
            r@ == devices_of_type(devices@, DeviceType::WiFi),
    {
        filter_devices(devices, DeviceType::WiFi)
    }

    /// Convenience method to only keep ethernet devices
    pub fn get_ethernet_devices(&self, devices: Vec<Device>) -> (r: Vec<Device>)
        ensures
            r@ == devices_of_type(devices@, DeviceType::Ethernet),
    {
        filter_devices(devices, DeviceType::Ethernet)
    }
}

} // verus!
