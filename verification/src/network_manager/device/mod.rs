//! Network devices of the network manager.

use vstd::prelude::*;
use crate::network_manager::dbus::{
    calls, is_path_arg, method_call, path_arg, root_arg, usable_path, CallArg, MethodCall, NM_DEVICE_INTERFACE,
    NM_SERVICE_INTERFACE, NM_SERVICE_PATH,
};
use crate::text::owned;
use crate::network_manager::errors::NetworkManagerError;
use crate::network_manager::nm::NetworkManager;
use crate::nm::connectivity::{DeviceState, DeviceType, device_state_of};

pub mod ethernet;
pub mod state;
pub mod wifi;
pub mod wifi_ap;
pub mod wifi_sta;

verus! {

/// A network device.
#[derive(Debug, PartialEq)]
pub struct Device {
    dbus_manager: NetworkManager,
    path: String,
    interface: String,
    device_type: DeviceType,
}

/// Anything with a bus path.
pub trait PathGetter {
    fn path(&self) -> &str;
}

impl PathGetter for Device {
    fn path(&self) -> (r: &str)
        ensures
            r@ == self.path_view(),
    {
        self.path.as_str()
    }
}

/// What to do to bring a device into a state.
#[derive(Debug, PartialEq)]
pub enum DeviceStep {
    /// The device is in the state already.
    Done(DeviceState),
    /// Make the call, then wait up to the timeout (seconds) for the state.
    CallThenWait { call: MethodCall, target: DeviceState, timeout: u64 },
}

/// True iff `c` asks the network manager to activate a connection on the device at `path`.
pub open spec fn is_device_activate_call(c: MethodCall, path: Seq<char>) -> bool {
    &&& calls(c, NM_SERVICE_PATH@, NM_SERVICE_INTERFACE, "ActivateConnection"@, 3)
    &&& is_path_arg(c.args@[0], "/"@)
    &&& is_path_arg(c.args@[1], path)
    &&& is_path_arg(c.args@[2], "/"@)
}

impl Device {
    pub closed spec fn path_view(&self) -> Seq<char> {
        self.path@
    }

    pub closed spec fn interface_view(&self) -> Seq<char> {
        self.interface@
    }

    pub closed spec fn device_type_view(&self) -> DeviceType {
        self.device_type
    }

    pub closed spec fn manager_view(&self) -> NetworkManager {
        self.dbus_manager
    }

    /// The device at `path`, with its "Interface" and "DeviceType" properties.
    pub fn try_new(dbus_manager: NetworkManager, path: String, interface: String, device_type: i64) -> (r: Device)
        ensures
            r.path_view() == path@,
            r.interface_view() == interface@,
            r.device_type_view() == DeviceType::from_code_spec(device_type),
            r.manager_view() == dbus_manager,
    {
        Device { dbus_manager, path, interface, device_type: DeviceType::from_code(device_type) }
    }

    pub fn device_type(&self) -> (r: &DeviceType)
        ensures
            *r == self.device_type_view(),
    {
        &self.device_type
    }

    pub fn interface(&self) -> (r: &str)
        ensures
            r@ == self.interface_view(),
    {
        self.interface.as_str()
    }

    /// This device as a wifi device, if it is one.
    pub fn as_wifi_device(&self) -> (r: Option<&Device>)
        ensures
            r == (if self.device_type_view() == DeviceType::WiFi { Some(self) } else { None::<&Device> }),
    {
        if self.device_type == DeviceType::WiFi {
            Some(self)
        } else {
            None
        }
    }

    /// This device as an ethernet device, if it is one.
    pub fn as_ethernet_device(&self) -> (r: Option<&Device>)
        ensures
            r == (if self.device_type_view() == DeviceType::Ethernet { Some(self) } else { None::<&Device> }),
    {
        if self.device_type == DeviceType::Ethernet {
            Some(self)
        } else {
            None
        }
    }

    /// The call that finds the device of a network interface ("GetDeviceByIpIface"); the
    /// device is then made from the path it returns.
    pub fn by_interface(dbus_manager: NetworkManager, interface: &str) -> (r: MethodCall)
        ensures
            calls(r, NM_SERVICE_PATH@, NM_SERVICE_INTERFACE, "GetDeviceByIpIface"@, 1),
            r.args@[0] matches CallArg::Text(t) && t@ == interface@,
    {
        let mut args: Vec<CallArg> = Vec::new();
        args.push(CallArg::Text(owned(interface)));
        MethodCall { object: owned(NM_SERVICE_PATH), interface: NM_SERVICE_INTERFACE, method: "GetDeviceByIpIface", args }
    }

    /// Connecting a device: nothing to do when it is activated; otherwise activate a
    /// connection on it ("ActivateConnection" with "/", the device path and "/") and wait
    /// until it is activated. The device path must be a valid object path.
    pub fn connect(&self, state: DeviceState) -> (r: Result<DeviceStep, NetworkManagerError>)
        ensures
            state == DeviceState::Activated ==> r matches Ok(DeviceStep::Done(DeviceState::Activated)),
            state != DeviceState::Activated && !usable_path(self.path_view()) ==> r is Err,
            state != DeviceState::Activated && usable_path(self.path_view()) ==> (r matches Ok(
                DeviceStep::CallThenWait { call, target, timeout },
            ) && is_device_activate_call(call, self.path_view()) && target == DeviceState::Activated && timeout
                == self.manager_view().timeout_view()),
    {
        match state {
            DeviceState::Activated => Ok(DeviceStep::Done(DeviceState::Activated)),
            _ => {
                let device = match path_arg(self.path.as_str()) {
                    Ok(a) => a,
                    Err(e) => return Err(e),
                };
                let mut args: Vec<CallArg> = Vec::new();
                args.push(root_arg());
                args.push(device);
                args.push(root_arg());
                Ok(DeviceStep::CallThenWait {
                    call: MethodCall {
                        object: owned(NM_SERVICE_PATH),
                        interface: NM_SERVICE_INTERFACE,
                        method: "ActivateConnection",
                        args,
                    },
                    target: DeviceState::Activated,
                    timeout: self.dbus_manager.method_timeout(),
                })
            },
        }
    }

    /// Disconnecting a device: nothing to do when it is disconnected; otherwise call
    /// "Disconnect" on it and wait until it is disconnected. The device path must be a
    /// valid object path.
    pub fn disconnect(&self, state: DeviceState) -> (r: Result<DeviceStep, NetworkManagerError>)
        ensures
            state == DeviceState::Disconnected ==> r matches Ok(DeviceStep::Done(DeviceState::Disconnected)),
            state != DeviceState::Disconnected && !usable_path(self.path_view()) ==> r is Err,
            state != DeviceState::Disconnected && usable_path(self.path_view()) ==> (r matches Ok(
                DeviceStep::CallThenWait { call, target, timeout },
            ) && calls(call, self.path_view(), NM_DEVICE_INTERFACE, "Disconnect"@, 0) && target
                == DeviceState::Disconnected && timeout == self.manager_view().timeout_view()),
    {
        match state {
            DeviceState::Disconnected => Ok(DeviceStep::Done(DeviceState::Disconnected)),
            _ => match method_call(self.path.as_str(), NM_DEVICE_INTERFACE, "Disconnect", Vec::new()) {
                Ok(call) => Ok(DeviceStep::CallThenWait {
                    call,
                    target: DeviceState::Disconnected,
                    timeout: self.dbus_manager.method_timeout(),
                }),
                Err(e) => Err(e),
            },
        }
    }
}

/// Whether waiting for a device state is over after `elapsed` seconds (one poll per
/// second): when the device is in the target state or the timeout has passed. A zero
/// timeout means a single read without waiting.
pub fn wait_for_device(target_state: DeviceState, state: DeviceState, elapsed: u64, timeout: u64) -> (r: bool)
    ensures
        r == (state == target_state || elapsed >= timeout),
{
    state == target_state || elapsed >= timeout
}

/// The devices at the given paths, each given with its "Interface" and "DeviceType"
/// properties, in their order.
pub fn get_devices(dbus_manager: &NetworkManager, found: Vec<(String, String, i64)>) -> (r: Vec<Device>)
    ensures
        r@.len() == found@.len(),
        forall|i: int| 0 <= i < found@.len() ==> {
            &&& (#[trigger] r@[i]).path_view() == found@[i].0@
            &&& r@[i].interface_view() == found@[i].1@
            &&& r@[i].device_type_view() == DeviceType::from_code_spec(found@[i].2)
            &&& r@[i].manager_view() == *dbus_manager
        },
{
    let ghost orig = found@;
    let mut found = found;
    let mut out: Vec<Device> = Vec::new();
    while found.len() > 0
        invariant
            out@.len() + found@.len() == orig.len(),
            found@ == orig.subrange(out@.len() as int, orig.len() as int),
            forall|i: int| 0 <= i < out@.len() ==> {
                &&& (#[trigger] out@[i]).path_view() == orig[i].0@
                &&& out@[i].interface_view() == orig[i].1@
                &&& out@[i].device_type_view() == DeviceType::from_code_spec(orig[i].2)
                &&& out@[i].manager_view() == *dbus_manager
            },
        decreases found@.len(),
    {
        let ghost k = out@.len() as int;
        let (path, interface, device_type) = found.remove(0);
        assert(orig[k] == (path, interface, device_type));
        out.push(Device::try_new(*dbus_manager, path, interface, device_type));
        assert(found@ =~= orig.subrange(out@.len() as int, orig.len() as int));
    }
    out
}

/// The devices of an active connection, each given with its path, "Interface" and
/// "DeviceType" properties, in their order.
pub fn get_active_connection_devices(dbus_manager: &NetworkManager, found: Vec<(String, String, i64)>) -> (r: Vec<Device>)
    ensures
        r@.len() == found@.len(),
        forall|i: int| 0 <= i < found@.len() ==> {
            &&& (#[trigger] r@[i]).path_view() == found@[i].0@
            &&& r@[i].interface_view() == found@[i].1@
            &&& r@[i].device_type_view() == DeviceType::from_code_spec(found@[i].2)
            &&& r@[i].manager_view() == *dbus_manager
        },
{
    get_devices(dbus_manager, found)
}

} // verus!
