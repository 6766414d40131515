//! Stored connections of the network manager, and the decisions of activating and
//! deactivating them.

pub mod ssid;
pub mod state;
pub mod wifi_settings;

use vstd::prelude::*;
use vstd::utf8::{decode_utf8, encode_utf8, is_ascii_chars, valid_utf8};
use crate::network_manager::dbus::{
    calls, is_path_arg, method_call, path_arg, root_arg, usable_path, CallArg, MethodCall, NM_CONNECTION_INTERFACE,
    NM_SERVICE_INTERFACE, NM_SERVICE_PATH, NM_SETTINGS_INTERFACE, NM_SETTINGS_PATH,
};
use crate::network_manager::errors::NetworkManagerError;
use crate::network_manager::nm::NetworkManager;
use crate::network_manager::utils::{add_str, add_string, add_val, ascii_password_problem, verify_ascii_password};
use crate::network_interface::AccessPointCredentials;
use crate::settings::{SettingValue, SettingsMap, ValueView, VariantMap};
use crate::network_manager::device::{get_active_connection_devices, Device};
use crate::sorting::{all_keyed, same_keyed_order, sorted_by_key, stable_sort_by_key, SortKey};
use crate::text::{file_name_of, find_last, i32_text_value, owned, parse_i32, str_bytes, str_eq, suffix};
use ssid::Ssid;
use state::ConnectionState;
use wifi_settings::WiFiConnectionSettings;

verus! {

/// A stored connection: its bus path and settings.
#[derive(Debug, PartialEq)]
pub struct Connection {
    dbus_manager: NetworkManager,
    path: String,
    pub settings: WiFiConnectionSettings,
}

/// What to do to bring a connection into a state.
#[derive(Debug, PartialEq)]
pub enum ConnectionStep {
    /// The connection is in the state already.
    Done(ConnectionState),
    /// The connection is on its way: wait up to the timeout (seconds) for the state.
    WaitFor { target: ConnectionState, timeout: u64 },
    /// Make the call, then wait up to the timeout (seconds) for the state.
    CallThenWait { call: MethodCall, target: ConnectionState, timeout: u64 },
}

/// True iff `c` asks the network manager to activate the connection at `path`.
pub open spec fn is_activate_call(c: MethodCall, path: Seq<char>) -> bool {
    &&& calls(c, NM_SERVICE_PATH@, NM_SERVICE_INTERFACE, "ActivateConnection"@, 3)
    &&& is_path_arg(c.args@[0], path)
    &&& is_path_arg(c.args@[1], "/"@)
    &&& is_path_arg(c.args@[2], "/"@)
}

/// True iff `c` asks the network manager to deactivate the active connection at `path`.
pub open spec fn is_deactivate_call(c: MethodCall, path: Seq<char>) -> bool {
    &&& calls(c, NM_SERVICE_PATH@, NM_SERVICE_INTERFACE, "DeactivateConnection"@, 1)
    &&& is_path_arg(c.args@[0], path)
}

/// The call that activates the stored connection at `path` (on any device, with any
/// specific object); an invalid path is an error.
pub fn activate_connection(dbus_manager: &NetworkManager, path: &str) -> (r: Result<MethodCall, NetworkManagerError>)
    ensures
        r is Ok <==> usable_path(path@),
        r matches Ok(c) ==> is_activate_call(c, path@),
{
    let first = match path_arg(path) {
        Ok(a) => a,
        Err(e) => return Err(e),
    };
    let mut args: Vec<CallArg> = Vec::new();
    args.push(first);
    args.push(root_arg());
    args.push(root_arg());
    Ok(MethodCall {
        object: owned(NM_SERVICE_PATH),
        interface: NM_SERVICE_INTERFACE,
        method: "ActivateConnection",
        args,
    })
}

/// The call that deactivates the active connection at `path`; an invalid path is an error.
pub fn deactivate_connection(dbus_manager: &NetworkManager, path: &str) -> (r: Result<MethodCall, NetworkManagerError>)
    ensures
        r is Ok <==> usable_path(path@),
        r matches Ok(c) ==> is_deactivate_call(c, path@),
{
    let first = match path_arg(path) {
        Ok(a) => a,
        Err(e) => return Err(e),
    };
    let mut args: Vec<CallArg> = Vec::new();
    args.push(first);
    Ok(MethodCall {
        object: owned(NM_SERVICE_PATH),
        interface: NM_SERVICE_INTERFACE,
        method: "DeactivateConnection",
        args,
    })
}

/// The call that deletes the stored connection at `path`; an invalid path is an error.
pub fn delete_connection(dbus_manager: &NetworkManager, path: &str) -> (r: Result<MethodCall, NetworkManagerError>)
    ensures
        r is Ok <==> usable_path(path@),
        r matches Ok(c) ==> calls(c, path@, NM_CONNECTION_INTERFACE, "Delete"@, 0),
{
    method_call(path, NM_CONNECTION_INTERFACE, "Delete", Vec::new())
}

impl Connection {
    /// The connection at `path` with its settings.
    pub fn init(dbus_manager: NetworkManager, path: String, settings: WiFiConnectionSettings) -> (r: Self)
        ensures
            r.path_view() == path@,
            r.manager_view() == dbus_manager,
            r.settings_view() == settings,
            r == connection_of(dbus_manager, path, settings),
    {
        Connection { dbus_manager, path, settings }
    }

    pub closed spec fn path_view(&self) -> Seq<char> {
        self.path@
    }

    pub closed spec fn manager_view(&self) -> NetworkManager {
        self.dbus_manager
    }

    pub closed spec fn settings_view(&self) -> WiFiConnectionSettings {
        self.settings
    }

    /// The connection's bus path.
    pub fn path(&self) -> (r: &str)
        ensures
            r@ == self.path_view(),
    {
        self.path.as_str()
    }

    /// The connection's state: that of its active connection, if it has one, and
    /// deactivated otherwise.
    pub fn get_state(&self, active_state: Option<ConnectionState>) -> (r: ConnectionState)
        ensures
            r == match active_state {
                Some(s) => s,
                None => ConnectionState::Deactivated,
            },
    {
        match active_state {
            Some(state) => state,
            None => ConnectionState::Deactivated,
        }
    }

    /// Activating a connection: nothing to do when it is activated, wait when it is
    /// activating, an error when its state is unknown, otherwise activate it
    /// ("ActivateConnection" with its path, "/" and "/") and wait until it is activated.
    pub fn activate(&self, state: ConnectionState) -> (r: Result<ConnectionStep, NetworkManagerError>)
        ensures
            state == ConnectionState::Activated ==> r matches Ok(ConnectionStep::Done(ConnectionState::Activated)),
            state == ConnectionState::Activating ==> (r matches Ok(ConnectionStep::WaitFor { target, timeout })
                && target == ConnectionState::Activated && timeout == self.manager_view().timeout_view()),
            state == ConnectionState::Unknown ==> (r matches Err(NetworkManagerError::NetworkManager(m))
                && m@ == "Unable to get connection state"@),
            (state == ConnectionState::Deactivating || state == ConnectionState::Deactivated) ==> (if usable_path(
                self.path_view(),
            ) {
                (r matches Ok(ConnectionStep::CallThenWait { call, target, timeout }) && is_activate_call(
                    call,
                    self.path_view(),
                ) && target == ConnectionState::Activated && timeout == self.manager_view().timeout_view())
            } else {
                r is Err
            }),
    {
        match state {
            ConnectionState::Activated => Ok(ConnectionStep::Done(ConnectionState::Activated)),
            ConnectionState::Activating => Ok(ConnectionStep::WaitFor {
                target: ConnectionState::Activated,
                timeout: self.dbus_manager.method_timeout(),
            }),
            ConnectionState::Unknown => Err(NetworkManagerError::network_manager(owned("Unable to get connection state"))),
            _ => match activate_connection(&self.dbus_manager, self.path.as_str()) {
                Ok(call) => Ok(ConnectionStep::CallThenWait {
                    call,
                    target: ConnectionState::Activated,
                    timeout: self.dbus_manager.method_timeout(),
                }),
                Err(e) => Err(e),
            },
        }
    }

    /// Deactivating a connection: nothing to do when it is deactivated, wait when it is
    /// deactivating, an error when its state is unknown, otherwise deactivate its active
    /// connection ("DeactivateConnection") and wait until it is deactivated; without an
    /// active connection it is deactivated.
    pub fn deactivate(&self, state: ConnectionState, active_path: Option<String>) -> (r: Result<
        ConnectionStep,
        NetworkManagerError,
    >)
        ensures
            state == ConnectionState::Deactivated ==> r matches Ok(ConnectionStep::Done(ConnectionState::Deactivated)),
            state == ConnectionState::Deactivating ==> (r matches Ok(ConnectionStep::WaitFor { target, timeout })
                && target == ConnectionState::Deactivated && timeout == self.manager_view().timeout_view()),
            state == ConnectionState::Unknown ==> (r matches Err(NetworkManagerError::NetworkManager(m))
                && m@ == "Unable to get connection state"@),
            (state == ConnectionState::Activating || state == ConnectionState::Activated) ==> match active_path {
                None => r matches Ok(ConnectionStep::Done(ConnectionState::Deactivated)),
                Some(p) => if usable_path(p@) {
                    (r matches Ok(ConnectionStep::CallThenWait { call, target, timeout }) && is_deactivate_call(call, p@)
                        && target == ConnectionState::Deactivated && timeout == self.manager_view().timeout_view())
                } else {
                    r is Err
                },
            },
    {
        match state {
            ConnectionState::Deactivated => Ok(ConnectionStep::Done(ConnectionState::Deactivated)),
            ConnectionState::Deactivating => Ok(ConnectionStep::WaitFor {
                target: ConnectionState::Deactivated,
                timeout: self.dbus_manager.method_timeout(),
            }),
            ConnectionState::Unknown => Err(NetworkManagerError::network_manager(owned("Unable to get connection state"))),
            _ => match active_path {
                Some(active_path) => match deactivate_connection(&self.dbus_manager, active_path.as_str()) {
                    Ok(call) => Ok(ConnectionStep::CallThenWait {
                        call,
                        target: ConnectionState::Deactivated,
                        timeout: self.dbus_manager.method_timeout(),
                    }),
                    Err(e) => Err(e),
                },
                None => Ok(ConnectionStep::Done(ConnectionState::Deactivated)),
            },
        }
    }

    /// The call that deletes this connection.
    pub fn delete(&self) -> (r: Result<MethodCall, NetworkManagerError>)
        ensures
            r is Ok <==> usable_path(self.path_view()),
            r matches Ok(c) ==> calls(c, self.path_view(), NM_CONNECTION_INTERFACE, "Delete"@, 0),
    {
        delete_connection(&self.dbus_manager, self.path.as_str())
    }

    /// The devices of this connection: those of its active connection, given with their
    /// path, "Interface" and "DeviceType" properties; none when it is not active.
    pub fn get_devices(&self, active_devices: Option<Vec<(String, String, i64)>>) -> (r: Vec<Device>)
        ensures
            match active_devices {
                None => r@.len() == 0,
                Some(d) => r@.len() == d@.len() && forall|i: int| 0 <= i < d@.len() ==> {
                    &&& (#[trigger] r@[i]).path_view() == d@[i].0@
                    &&& r@[i].interface_view() == d@[i].1@
                    &&& r@[i].device_type_view() == crate::nm::connectivity::DeviceType::from_code_spec(d@[i].2)
                    &&& r@[i].manager_view() == self.manager_view()
                },
            },
    {
        match active_devices {
            Some(devices) => get_active_connection_devices(&self.dbus_manager, devices),
            None => Vec::new(),
        }
    }
}

/// The connection at `path` with the given settings.
pub closed spec fn connection_of(dbus_manager: NetworkManager, path: String, settings: WiFiConnectionSettings) -> Connection {
    Connection { dbus_manager, path, settings }
}

/// The connections made from (path, settings) entries, in their order.
pub open spec fn connections_of(dbus_manager: NetworkManager, found: Seq<(String, WiFiConnectionSettings)>) -> Seq<
    Connection,
> {
    found.map_values(|e: (String, WiFiConnectionSettings)| connection_of(dbus_manager, e.0, e.1))
}

/// A connection made from a path and settings has that path, those settings and that manager.
pub proof fn lemma_connection_of(dbus_manager: NetworkManager, path: String, settings: WiFiConnectionSettings)
    ensures
        connection_of(dbus_manager, path, settings).path_view() == path@,
        connection_of(dbus_manager, path, settings).settings_view() == settings,
        connection_of(dbus_manager, path, settings).manager_view() == dbus_manager,
{
}

/// The number that ends a connection path: the text after its last slash, as a 32-bit
/// integer, if it is one.
pub open spec fn path_number(path: Seq<char>) -> Option<i32> {
    i32_text_value(file_name_of(path))
}

/// The number that ends a connection path ("/org/.../Settings/12" gives 12).
pub fn connection_number(path: &str) -> (r: Option<i32>)
    ensures
        r == path_number(path@),
{
    let name = match find_last(path, '/') {
        Some(i) => suffix(path, i + 1),
        None => owned(path),
    };
    parse_i32(name.as_str())
}

impl SortKey for Connection {
    open spec fn has_key(&self) -> bool {
        path_number(self.path_view()) is Some
    }

    open spec fn key_spec(&self) -> int {
        path_number(self.path_view()).unwrap() as int
    }

    fn sort_key(&self) -> (r: i64) {
        match connection_number(self.path.as_str()) {
            Some(n) => n as i64,
            None => 0,
        }
    }
}

/// True iff every entry's path ends in a number.
pub open spec fn numbered(found: Seq<(String, WiFiConnectionSettings)>) -> bool {
    forall|i: int| 0 <= i < found.len() ==> (#[trigger] path_number(found[i].0@)) is Some
}

/// Builds connections from entries, in their order.
fn build_connections(dbus_manager: &NetworkManager, found: Vec<(String, WiFiConnectionSettings)>) -> (r: Vec<Connection>)
    ensures
        r@ == connections_of(*dbus_manager, found@),
{
    let ghost orig = found@;
    let mut found = found;
    let mut out: Vec<Connection> = Vec::new();
    while found.len() > 0
        invariant
            out@ + connections_of(*dbus_manager, found@) == connections_of(*dbus_manager, orig),
        decreases found@.len(),
    {
        let ghost before = found@;
        let (path, settings) = found.remove(0);
        assert(before.drop_first() =~= found@);
        assert(connections_of(*dbus_manager, before) =~= seq![connection_of(*dbus_manager, path, settings)]
            + connections_of(*dbus_manager, found@));
        out.push(Connection::init(*dbus_manager, path, settings));
        assert(out@ + connections_of(*dbus_manager, found@) =~= connections_of(*dbus_manager, orig));
    }
    assert(out@ =~= connections_of(*dbus_manager, orig));
    out
}

/// The stored connections, given with their path and settings, sorted by the number that
/// ends their path (connections with equal numbers keep their order). Every path must end
/// in a number.
pub fn list_connections(dbus_manager: &NetworkManager, found: Vec<(String, WiFiConnectionSettings)>) -> (r: Vec<
    Connection,
>)
    requires
        numbered(found@),
    ensures
        sorted_by_key(r@),
        same_keyed_order(r@, connections_of(*dbus_manager, found@)),
        r@.to_multiset() == connections_of(*dbus_manager, found@).to_multiset(),
{
    let connections = build_connections(dbus_manager, found);
    proof {
        assert forall|i: int| 0 <= i < connections@.len() implies (#[trigger] connections@[i]).has_key() by {
            assert(path_number(found@[i].0@) is Some);
        }
    }
    stable_sort_by_key(connections)
}

/// The entries that are present, in their order.
pub open spec fn present<T>(s: Seq<Option<T>>) -> Seq<T>
    decreases s.len(),
{
    if s.len() == 0 {
        Seq::empty()
    } else {
        let rest = present(s.drop_last());
        match s.last() {
            Some(x) => rest.push(x),
            None => rest,
        }
    }
}

/// The connections of the active connections, sorted as by [`list_connections`]. Each
/// active connection is given with the path and settings of its connection, or `None`
/// when its connection could not be read; those are left out.
pub fn list_active_connections(
    dbus_manager: &NetworkManager,
    found: Vec<Option<(String, WiFiConnectionSettings)>>,
) -> (r: Vec<Connection>)
    requires
        numbered(present(found@)),
    ensures
        sorted_by_key(r@),
        same_keyed_order(r@, connections_of(*dbus_manager, present(found@))),
        r@.to_multiset() == connections_of(*dbus_manager, present(found@)).to_multiset(),
{
    let ghost orig = found@;
    let mut kept: Vec<(String, WiFiConnectionSettings)> = Vec::new();
    let mut rest = found;
    let ghost mut done: Seq<Option<(String, WiFiConnectionSettings)>> = Seq::empty();
    proof {
        assert(orig =~= done + rest@);
    }
    while rest.len() > 0
        invariant
            orig == done + rest@,
            kept@ == present(done),
        decreases rest@.len(),
    {
        let ghost before = rest@;
        let entry = rest.remove(0);
        proof {
            assert(before.drop_first() =~= rest@);
            let prev = done;
            done = done.push(entry);
            assert(orig =~= done + rest@);
            assert(done.drop_last() =~= prev);
        }
        match entry {
            Some(e) => kept.push(e),
            None => {},
        }
    }
    proof {
        assert(done =~= orig);
    }
    list_connections(dbus_manager, kept)
}

/// Whether waiting for a connection state is over after `elapsed` seconds (one poll per
/// second): when the connection is in the target state or the timeout has passed. A zero
/// timeout means a single read without waiting.
pub fn wait_for_connection(target_state: ConnectionState, state: ConnectionState, elapsed: u64, timeout: u64) -> (r: bool)
    ensures
        r == (state == target_state || elapsed >= timeout),
{
    state == target_state || elapsed >= timeout
}

/// The active connection (path) whose connection is `connection_path`. Each active
/// connection is given with the path of its connection, if that could be read.
pub fn get_active_connection_by_path(
    connection_path: &str,
    active_connections: &Vec<(String, Option<String>)>,
) -> (r: Option<String>)
    ensures
        match r {
            Some(a) => exists|i: int| 0 <= i < active_connections@.len() && #[trigger] active_connections@[i].0@ == a@
                && active_connections@[i].1 is Some && active_connections@[i].1.unwrap()@ == connection_path@
                && forall|j: int| 0 <= j < i ==> !(#[trigger] active_connections@[j].1 is Some
                    && active_connections@[j].1.unwrap()@ == connection_path@),
            None => forall|j: int| 0 <= j < active_connections@.len() ==> !(#[trigger] active_connections@[j].1 is Some
                && active_connections@[j].1.unwrap()@ == connection_path@),
        },
{
    let mut i: usize = 0;
    while i < active_connections.len()
        invariant
            i <= active_connections@.len(),
            forall|j: int| 0 <= j < i ==> !(#[trigger] active_connections@[j].1 is Some
                && active_connections@[j].1.unwrap()@ == connection_path@),
        decreases active_connections@.len() - i,
    {
        match &active_connections[i].1 {
            Some(settings_path) => {
                if str_eq(settings_path.as_str(), connection_path) {
                    let found = active_connections[i].0.clone();
                    assert(active_connections@[i as int].0@ == found@);
                    return Some(found);
                }
            },
            None => {},
        }
        i = i + 1;
    }
    None
}

/// True iff a pre shared key is ASCII and 8 to 32 characters long.
pub open spec fn ascii_password_ok(p: Seq<char>) -> bool {
    is_ascii_chars(p) && 8 <= p.len() <= 32
}

/// True iff the credentials carry an acceptable pre shared key where one is checked.
pub open spec fn credentials_ok(c: AccessPointCredentials) -> bool {
    match c {
        AccessPointCredentials::Wep { passphrase } => ascii_password_ok(passphrase@),
        AccessPointCredentials::Wpa { passphrase } => ascii_password_ok(passphrase@),
        _ => true,
    }
}

/// The error text for credentials whose pre shared key is not acceptable.
pub open spec fn key_problem(c: AccessPointCredentials) -> Seq<char> {
    match c {
        AccessPointCredentials::Wep { passphrase } => ascii_password_problem(passphrase@),
        AccessPointCredentials::Wpa { passphrase } => ascii_password_problem(passphrase@),
        _ => Seq::empty(),
    }
}

/// The settings after the security sections for the credentials were added.
pub open spec fn with_security(
    s: Map<Seq<char>, Map<Seq<char>, ValueView>>,
    c: AccessPointCredentials,
) -> Map<Seq<char>, Map<Seq<char>, ValueView>> {
    match c {
        AccessPointCredentials::Wep { passphrase } => s.insert(
            "802-11-wireless-security"@,
            Map::empty().insert("wep-key-type"@, ValueView::UInt(2)).insert("wep-key0"@, ValueView::Str(passphrase@)),
        ),
        _ => crate::network_backend::nm::wifi_settings::with_security(s, c),
    }
}

/// Adds the security sections for the given credentials to the settings. WEP and WPA
/// keys must be ASCII and 8 to 32 characters long; the settings stay unchanged otherwise.
pub fn prepare_wifi_security_settings(
    credentials: &AccessPointCredentials,
    settings: &mut SettingsMap,
) -> (r: Result<(), NetworkManagerError>)
    ensures
        r is Ok <==> credentials_ok(*credentials),
        r is Ok ==> final(settings)@ == with_security(old(settings)@, *credentials),
        r is Err ==> final(settings)@ == old(settings)@ && (r matches Err(NetworkManagerError::PreSharedKey(m))
            && m@ == key_problem(*credentials)),
{
    match credentials {
        AccessPointCredentials::Wep { passphrase } => {
            let key = match verify_ascii_password(passphrase.clone()) {
                Ok(k) => k,
                Err(e) => return Err(e),
            };
            let mut security_settings = VariantMap::new();
            add_val(&mut security_settings, "wep-key-type", SettingValue::UInt(2));
            add_string(&mut security_settings, "wep-key0", key);
            settings.insert(owned("802-11-wireless-security"), security_settings);
        },
        AccessPointCredentials::Wpa { passphrase } => {
            let key = match verify_ascii_password(passphrase.clone()) {
                Ok(k) => k,
                Err(e) => return Err(e),
            };
            let mut security_settings = VariantMap::new();
            add_str(&mut security_settings, "key-mgmt", "wpa-psk");
            add_string(&mut security_settings, "psk", key);
            settings.insert(owned("802-11-wireless-security"), security_settings);
        },
        AccessPointCredentials::Enterprise { identity, passphrase } => {
            let mut security_settings = VariantMap::new();
            add_str(&mut security_settings, "key-mgmt", "wpa-eap");

            let mut eap = VariantMap::new();
            let mut methods: Vec<String> = Vec::new();
            methods.push(owned("peap"));
            proof {
                assert(methods@.map_values(|s: String| s@) =~= seq!["peap"@]);
            }
            add_val(&mut eap, "eap", SettingValue::StrList(methods));
            add_str(&mut eap, "identity", identity.as_str());
            add_str(&mut eap, "password", passphrase.as_str());
            add_str(&mut eap, "phase2-auth", "mschapv2");

            settings.insert(owned("802-11-wireless-security"), security_settings);
            settings.insert(owned("802-1x"), eap);
        },
        AccessPointCredentials::Open => {},
    }
    Ok(())
}

/// The settings of a new wifi connection to `ssid` on the interface, before its security sections.
pub open spec fn new_connection_settings(ssid: Seq<char>, interface: Seq<char>) -> Map<Seq<char>, Map<Seq<char>, ValueView>> {
    Map::empty().insert(
        "802-11-wireless"@,
        Map::empty().insert("ssid"@, ValueView::Bytes(encode_utf8(ssid))),
    )
}

/// The "connection" section of a new wifi connection.
pub open spec fn new_connection_section(ssid: Seq<char>, interface: Seq<char>) -> Map<Seq<char>, ValueView> {
    Map::empty().insert("type"@, ValueView::Str("802-11-wireless"@)).insert(
        "interface-name"@,
        ValueView::Str(interface),
    ).insert("id"@, ValueView::Str(ssid))
}

/// The call that stores a new wifi connection to `ssid` on the interface, named by the
/// SSID, with the security sections for the credentials. Credentials whose key is not
/// acceptable are an error.
pub fn add_wifi_connection(
    dbus_manager: &NetworkManager,
    ssid: &str,
    interface: &str,
    credentials: &AccessPointCredentials,
) -> (r: Result<MethodCall, NetworkManagerError>)
    ensures
        r is Ok <==> credentials_ok(*credentials),
        r is Err ==> (r matches Err(NetworkManagerError::PreSharedKey(m)) && m@ == key_problem(*credentials)),
        r matches Ok(c) ==> calls(c, NM_SETTINGS_PATH@, NM_SETTINGS_INTERFACE, "AddConnection"@, 1) && (
        c.args@[0] matches CallArg::Settings(s) && s@ == with_security(
            new_connection_settings(ssid@, interface@),
            *credentials,
        ).insert("connection"@, new_connection_section(ssid@, interface@))),
{
    let mut settings = SettingsMap::new();

    let mut wireless = VariantMap::new();
    add_val(&mut wireless, "ssid", SettingValue::Bytes(str_bytes(ssid)));
    settings.insert(owned("802-11-wireless"), wireless);
    assert(settings@ =~= new_connection_settings(ssid@, interface@));

    match prepare_wifi_security_settings(credentials, &mut settings) {
        Ok(()) => {},
        Err(e) => return Err(e),
    }

    let mut connection = VariantMap::new();
    add_str(&mut connection, "type", "802-11-wireless");
    add_str(&mut connection, "interface-name", interface);
    add_str(&mut connection, "id", ssid);
    settings.insert(owned("connection"), connection);
    let mut args: Vec<CallArg> = Vec::new();
    args.push(CallArg::Settings(settings));
    Ok(MethodCall { object: owned(NM_SETTINGS_PATH), interface: NM_SETTINGS_INTERFACE, method: "AddConnection", args })
}

/// True iff the connection is a wifi connection in access point mode.
pub open spec fn is_access_point_connection(c: Connection) -> bool {
    c.settings_view().kind@ == "802-11-wireless"@ && c.settings_view().mode@ == "ap"@
}

/// True iff the connection is a wifi connection whose SSID (as UTF-8 text) is `ssid`.
pub open spec fn is_wifi_connection_to(c: Connection, ssid: Seq<char>) -> bool {
    valid_utf8(c.settings_view().ssid@) && c.settings_view().kind@ == "802-11-wireless"@ && decode_utf8(
        c.settings_view().ssid@,
    ) == ssid
}

/// True iff the connection is a wifi connection to `ssid`.
fn connection_to(c: &Connection, ssid: &str) -> (r: bool)
    ensures
        r == is_wifi_connection_to(*c, ssid@),
{
    match c.settings.ssid.to_string() {
        Some(connection_ssid) => str_eq(c.settings.kind.as_str(), "802-11-wireless") && str_eq(
            connection_ssid.as_str(),
            ssid,
        ),
        None => false,
    }
}

/// The positions of the connections to delete before creating a hotspot: the wifi
/// connections in access point mode, in order.
pub fn delete_access_point_connections(connections: &Vec<Connection>) -> (r: Vec<usize>)
    ensures
        forall|k: int| 0 <= k < r@.len() ==> #[trigger] r@[k] < connections@.len() && is_access_point_connection(
            connections@[r@[k] as int],
        ),
        forall|k: int, l: int| 0 <= k < l < r@.len() ==> r@[k] < r@[l],
        forall|j: int| 0 <= j < connections@.len() && is_access_point_connection(#[trigger] connections@[j])
            ==> r@.contains(j as usize),
{
    let mut out: Vec<usize> = Vec::new();
    let mut i: usize = 0;
    while i < connections.len()
        invariant
            i <= connections@.len(),
            forall|k: int| 0 <= k < out@.len() ==> #[trigger] out@[k] < i && is_access_point_connection(
                connections@[out@[k] as int],
            ),
            forall|k: int, l: int| 0 <= k < l < out@.len() ==> out@[k] < out@[l],
            forall|j: int| 0 <= j < i && is_access_point_connection(#[trigger] connections@[j]) ==> out@.contains(
                j as usize,
            ),
        decreases connections@.len() - i,
    {
        let c = &connections[i];
        if str_eq(c.settings.kind.as_str(), "802-11-wireless") && str_eq(c.settings.mode.as_str(), "ap") {
            let ghost prev = out@;
            out.push(i);
            proof {
                assert forall|j: int| 0 <= j <= i && is_access_point_connection(
                    #[trigger] connections@[j],
                ) implies out@.contains(j as usize) by {
                    if j < i {
                        let k = choose|k: int| 0 <= k < prev.len() && prev[k] == j as usize;
                        assert(out@[k] == j as usize);
                    } else {
                        assert(out@[out@.len() - 1] == j as usize);
                    }
                }
            }
        }
        i = i + 1;
    }
    out
}

/// The first wifi connection to `ssid`, if any.
pub fn find_connection(connections: &Vec<Connection>, ssid: &str) -> (r: Option<usize>)
    ensures
        match r {
            Some(i) => i < connections@.len() && is_wifi_connection_to(connections@[i as int], ssid@)
                && forall|j: int| 0 <= j < i ==> !is_wifi_connection_to(#[trigger] connections@[j], ssid@),
            None => forall|j: int| 0 <= j < connections@.len() ==> !is_wifi_connection_to(#[trigger] connections@[j], ssid@),
        },
{
    let mut i: usize = 0;
    while i < connections.len()
        invariant
            i <= connections@.len(),
            forall|j: int| 0 <= j < i ==> !is_wifi_connection_to(#[trigger] connections@[j], ssid@),
        decreases connections@.len() - i,
    {
        if connection_to(&connections[i], ssid) {
            return Some(i);
        }
        i = i + 1;
    }
    None
}

/// The positions of all wifi connections to `ssid`, in order: those to delete before a
/// new connection to it is made.
pub fn delete_connection_if_exists(connections: &Vec<Connection>, ssid: &str) -> (r: Vec<usize>)
    ensures
        forall|k: int| 0 <= k < r@.len() ==> #[trigger] r@[k] < connections@.len() && is_wifi_connection_to(
            connections@[r@[k] as int],
            ssid@,
        ),
        forall|k: int, l: int| 0 <= k < l < r@.len() ==> r@[k] < r@[l],
        forall|j: int| 0 <= j < connections@.len() && is_wifi_connection_to(#[trigger] connections@[j], ssid@)
            ==> r@.contains(j as usize),
{
    let mut out: Vec<usize> = Vec::new();
    let mut i: usize = 0;
    while i < connections.len()
        invariant
            i <= connections@.len(),
            forall|k: int| 0 <= k < out@.len() ==> #[trigger] out@[k] < i && is_wifi_connection_to(
                connections@[out@[k] as int],
                ssid@,
            ),
            forall|k: int, l: int| 0 <= k < l < out@.len() ==> out@[k] < out@[l],
            forall|j: int| 0 <= j < i && is_wifi_connection_to(#[trigger] connections@[j], ssid@) ==> out@.contains(
                j as usize,
            ),
        decreases connections@.len() - i,
    {
        if connection_to(&connections[i], ssid) {
            let ghost prev = out@;
            out.push(i);
            proof {
                assert forall|j: int| 0 <= j <= i && is_wifi_connection_to(
                    #[trigger] connections@[j],
                    ssid@,
                ) implies out@.contains(j as usize) by {
                    if j < i {
                        let k = choose|k: int| 0 <= k < prev.len() && prev[k] == j as usize;
                        assert(out@[k] == j as usize);
                    } else {
                        assert(out@[out@.len() - 1] == j as usize);
                    }
                }
            }
        }
        i = i + 1;
    }
    out
}

} // verus!
