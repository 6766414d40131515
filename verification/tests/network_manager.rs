use wifi_captive::network_manager::connection::ssid::Ssid;
use wifi_captive::network_manager::connection::state::ConnectionState;
use wifi_captive::network_manager::connection::wifi_settings::WiFiConnectionSettings;
use wifi_captive::network_manager::connection::{
    activate_connection, add_wifi_connection, connection_number, delete_connection, list_active_connections,
    list_connections, wait_for_connection, Connection, ConnectionStep,
};
use wifi_captive::network_manager::dbus::service::{
    check_received_signal, start_service, stop_service, ServiceSignal, ServiceState, ServiceStep,
};
use wifi_captive::network_manager::dbus::{object_path, CallArg, MethodCall};
use wifi_captive::network_manager::device::{get_devices, Device, DeviceStep};
use wifi_captive::network_manager::errors::NetworkManagerError;
use wifi_captive::network_manager::nm::NetworkManager;
use wifi_captive::network_manager::utils::verify_ascii_password;
use wifi_captive::network_interface::AccessPointCredentials as BackendCredentials;
use wifi_captive::nm::connectivity::{Connectivity, DeviceState, DeviceType, NetworkManagerState};
use wifi_captive::nm::security::AccessPointCredentials;
use wifi_captive::settings::SettingValue;

fn settings(ssid: &str, mode: &str) -> WiFiConnectionSettings {
    WiFiConnectionSettings {
        kind: "802-11-wireless".to_string(),
        id: ssid.to_string(),
        uuid: "u".to_string(),
        ssid: Ssid::from_bytes(ssid.as_bytes().to_vec()),
        mode: mode.to_string(),
    }
}

/// The unit as the test system sees it: the step a decision asks for, carried out.
fn carry_out(step: ServiceStep) -> &'static str {
    match step {
        ServiceStep::Done(ServiceState::Active) | ServiceStep::WaitFor(ServiceState::Active) => "active",
        ServiceStep::CallThenWait(m, ServiceState::Active) if m == "StartUnit" => "active",
        ServiceStep::Done(ServiceState::Inactive) | ServiceStep::WaitFor(ServiceState::Inactive) => "inactive",
        ServiceStep::CallThenWait(m, ServiceState::Inactive) if m == "StopUnit" => "inactive",
        _ => "failed",
    }
}

fn unit_signal(active_state: &str) -> ServiceSignal {
    ServiceSignal {
        interface: Some("org.freedesktop.DBus.Properties".to_string()),
        member: Some("PropertiesChanged".to_string()),
        path: Some("/org/freedesktop/systemd1/unit/NetworkManager_2eservice".to_string()),
        changed_interface: Some("org.freedesktop.systemd1.Unit".to_string()),
        active_state: Some(active_state.to_string()),
    }
}

#[test]
fn test_start_stop_service() {
    let s = ServiceState::from_str("active").unwrap();

    assert!(s == ServiceState::Active || s == ServiceState::Inactive);

    match s {
        ServiceState::Active => {
            let reported = carry_out(stop_service(s).unwrap());
            assert_eq!(check_received_signal(&unit_signal(reported), ServiceState::Inactive), Ok(true));
            assert_eq!(ServiceState::Inactive, ServiceState::from_str(reported).unwrap());

            let reported = carry_out(start_service(ServiceState::from_str(reported).unwrap()).unwrap());
            assert_eq!(check_received_signal(&unit_signal(reported), ServiceState::Active), Ok(true));
            assert_eq!(ServiceState::Active, ServiceState::from_str(reported).unwrap());
        },
        ServiceState::Inactive => {
            let reported = carry_out(start_service(s).unwrap());
            assert_eq!(ServiceState::Active, ServiceState::from_str(reported).unwrap());

            let reported = carry_out(stop_service(ServiceState::from_str(reported).unwrap()).unwrap());
            assert_eq!(ServiceState::Inactive, ServiceState::from_str(reported).unwrap());
        },
        _ => (),
    }
}

#[test]
fn service_steps_for_each_state() {
    assert!(matches!(start_service(ServiceState::Active), Ok(ServiceStep::Done(ServiceState::Active))));
    assert!(matches!(start_service(ServiceState::Activating), Ok(ServiceStep::WaitFor(ServiceState::Active))));
    assert_eq!(start_service(ServiceState::Failed).err(), Some(NetworkManagerError::Generic("Service".to_string())));
    assert!(matches!(stop_service(ServiceState::Reloading), Ok(ServiceStep::CallThenWait("StopUnit", ServiceState::Inactive))));
    assert_eq!(stop_service(ServiceState::Failed).err(), Some(NetworkManagerError::Generic("".to_string())));
    assert!(ServiceState::from_str("sleeping").is_err());
}

#[test]
fn service_signal_checks() {
    let mut other = unit_signal("active");
    other.path = Some("/org/other".to_string());
    assert_eq!(check_received_signal(&other, ServiceState::Active), Ok(false));
    let mut headless = unit_signal("active");
    headless.member = None;
    assert!(check_received_signal(&headless, ServiceState::Active).is_err());
    assert_eq!(check_received_signal(&unit_signal("activating"), ServiceState::Active), Ok(false));
    assert!(check_received_signal(&unit_signal("bogus"), ServiceState::Active).is_err());
}

#[test]
fn signal_headers_are_checked_in_order() {
    let mut foreign = unit_signal("active");
    foreign.interface = Some("other".to_string());
    foreign.member = None;
    assert_eq!(check_received_signal(&foreign, ServiceState::Active), Ok(false));
    let mut other_member = unit_signal("active");
    other_member.member = Some("Other".to_string());
    other_member.path = None;
    assert_eq!(check_received_signal(&other_member, ServiceState::Active), Ok(false));
    let mut no_interface = unit_signal("active");
    no_interface.interface = None;
    assert_eq!(
        check_received_signal(&no_interface, ServiceState::Active),
        Err(NetworkManagerError::Generic("Service".to_string()))
    );
    let mut no_path = unit_signal("active");
    no_path.path = None;
    assert_eq!(
        check_received_signal(&no_path, ServiceState::Active),
        Err(NetworkManagerError::Generic("Service".to_string()))
    );
}

#[test]
fn test_get_connections() {
    let manager = NetworkManager::new();
    let found = vec![
        ("/org/freedesktop/NetworkManager/Settings/3".to_string(), settings("home", "infrastructure")),
        ("/org/freedesktop/NetworkManager/Settings/1".to_string(), settings("work", "infrastructure")),
    ];
    let connections = list_connections(&manager, found);
    assert!(connections.len() > 0);
}

#[test]
fn connections_are_sorted_by_path_number() {
    let manager = NetworkManager::new();
    let found = vec![
        ("/S/10".to_string(), settings("a", "ap")),
        ("/S/2".to_string(), settings("b", "ap")),
        ("/S/-1".to_string(), settings("c", "ap")),
        ("/S/2".to_string(), settings("d", "ap")),
    ];
    let connections = list_connections(&manager, found);
    let order: Vec<&str> = connections.iter().map(|c| c.settings.id.as_str()).collect();
    assert_eq!(order, vec!["c", "b", "d", "a"]);
    let paths: Vec<&str> = connections.iter().map(|c| c.path()).collect();
    assert_eq!(paths, vec!["/S/-1", "/S/2", "/S/2", "/S/10"]);
}

#[test]
fn active_connections_skip_unreadable_ones() {
    let manager = NetworkManager::new();
    let found = vec![
        Some(("/S/7".to_string(), settings("x", "ap"))),
        None,
        Some(("/S/4".to_string(), settings("y", "ap"))),
    ];
    let connections = list_active_connections(&manager, found);
    let order: Vec<&str> = connections.iter().map(|c| c.settings.id.as_str()).collect();
    assert_eq!(order, vec!["y", "x"]);
}

#[test]
fn connection_numbers() {
    assert_eq!(connection_number("/org/freedesktop/NetworkManager/Settings/12"), Some(12));
    assert_eq!(connection_number("/a/+7"), Some(7));
    assert_eq!(connection_number("/a/-2147483648"), Some(i32::MIN));
    assert_eq!(connection_number("/a/2147483648"), None);
    assert_eq!(connection_number("/a/b"), None);
    assert_eq!(connection_number("/a/"), None);
    assert_eq!(connection_number("42"), Some(42));
}

#[test]
fn test_get_devices() {
    let manager = NetworkManager::new();
    let found = vec![
        ("/org/freedesktop/NetworkManager/Devices/1".to_string(), "lo".to_string(), 14),
        ("/org/freedesktop/NetworkManager/Devices/2".to_string(), "wlan0".to_string(), 2),
    ];
    let devices = get_devices(&manager, found);
    assert!(devices.len() > 0);
}

#[test]
fn devices_keep_their_properties_and_order() {
    let manager = NetworkManager::new();
    let found = vec![
        ("/D/1".to_string(), "eth0".to_string(), 1),
        ("/D/2".to_string(), "wlan0".to_string(), 2),
        ("/D/3".to_string(), "wlan1".to_string(), 2),
    ];
    let devices = get_devices(&manager, found);
    assert_eq!(devices[1].interface(), "wlan0");
    assert_eq!(*devices[0].device_type(), DeviceType::Ethernet);
    let wifi = manager.get_wifi_devices(devices);
    let names: Vec<&str> = wifi.iter().map(|d| d.interface()).collect();
    assert_eq!(names, vec!["wlan0", "wlan1"]);
}

#[test]
fn test_get_connectivity() {
    let manager = NetworkManager::new();
    let connectivity = manager.check_connectivity(4);
    assert_eq!(connectivity, Connectivity::Full);
}

#[test]
fn manager_state_and_timeout() {
    let manager = NetworkManager::new();
    assert_eq!(manager.method_timeout(), 15);
    assert_eq!(NetworkManager::with_method_timeout(3).method_timeout(), 3);
    assert_eq!(manager.get_state(70), NetworkManagerState::ConnectedGlobal);
    assert_eq!(manager.get_state(5), NetworkManagerState::Unknown);
    assert_eq!(manager.check_connectivity(1), Connectivity::NoConnectivity);
}

fn path_of(arg: &CallArg) -> &str {
    match arg {
        CallArg::ObjectPath(p) => p.as_str(),
        _ => panic!("not a path"),
    }
}

#[test]
fn object_paths_are_checked() {
    assert_eq!(object_path("/org/freedesktop/NetworkManager/Settings/1"), Ok("/org/freedesktop/NetworkManager/Settings/1".to_string()));
    assert_eq!(object_path("/"), Ok("/".to_string()));
    assert!(object_path("org/x").is_err());
    assert!(object_path("/a//b").is_err());
    assert!(object_path("/a/").is_err());
    assert!(object_path("/a-b").is_err());
    assert!(object_path("/a\0b").is_err());
}

#[test]
fn activating_a_connection() {
    let manager = NetworkManager::new();
    let c = Connection::init(manager, "/S/5".to_string(), settings("net", "infrastructure"));
    assert!(matches!(c.activate(ConnectionState::Activated), Ok(ConnectionStep::Done(ConnectionState::Activated))));
    assert!(matches!(
        c.activate(ConnectionState::Activating),
        Ok(ConnectionStep::WaitFor { target: ConnectionState::Activated, timeout: 15 })
    ));
    assert_eq!(
        c.activate(ConnectionState::Unknown).err(),
        Some(NetworkManagerError::NetworkManager("Unable to get connection state".to_string()))
    );
    match c.activate(ConnectionState::Deactivated) {
        Ok(ConnectionStep::CallThenWait { call, target, timeout }) => {
            assert_eq!(call.object, "/org/freedesktop/NetworkManager");
            assert_eq!(call.interface, "org.freedesktop.NetworkManager");
            assert_eq!(call.method, "ActivateConnection");
            let args: Vec<&str> = call.args.iter().map(path_of).collect();
            assert_eq!(args, vec!["/S/5", "/", "/"]);
            assert_eq!(target, ConnectionState::Activated);
            assert_eq!(timeout, 15);
        },
        _ => panic!("expected a call"),
    }
    let bad = Connection::init(manager, "bad path".to_string(), settings("net", "ap"));
    assert!(bad.activate(ConnectionState::Deactivated).is_err());
}

#[test]
fn deactivating_a_connection() {
    let manager = NetworkManager::with_method_timeout(7);
    let c = Connection::init(manager, "/S/5".to_string(), settings("net", "infrastructure"));
    assert!(matches!(c.deactivate(ConnectionState::Activated, None), Ok(ConnectionStep::Done(ConnectionState::Deactivated))));
    match c.deactivate(ConnectionState::Activated, Some("/A/9".to_string())) {
        Ok(ConnectionStep::CallThenWait { call, target, timeout }) => {
            assert_eq!(call.method, "DeactivateConnection");
            let args: Vec<&str> = call.args.iter().map(path_of).collect();
            assert_eq!(args, vec!["/A/9"]);
            assert_eq!(target, ConnectionState::Deactivated);
            assert_eq!(timeout, 7);
        },
        _ => panic!("expected a call"),
    }
    match c.delete() {
        Ok(MethodCall { object, interface, method, args }) => {
            assert_eq!(object, "/S/5");
            assert_eq!(interface, "org.freedesktop.NetworkManager.Settings.Connection");
            assert_eq!(method, "Delete");
            assert!(args.is_empty());
        },
        _ => panic!("expected a call"),
    }
    assert!(delete_connection(&manager, "").is_err());
    assert!(activate_connection(&manager, "/x").is_ok());
}

#[test]
fn waiting_for_a_state_ends_on_the_state_or_the_timeout() {
    assert!(wait_for_connection(ConnectionState::Activated, ConnectionState::Activated, 1, 10));
    assert!(!wait_for_connection(ConnectionState::Activated, ConnectionState::Activating, 3, 10));
    assert!(wait_for_connection(ConnectionState::Activated, ConnectionState::Activating, 10, 10));
    assert!(wait_for_connection(ConnectionState::Activated, ConnectionState::Activating, 0, 0));
}

#[test]
fn ascii_passwords() {
    assert_eq!(verify_ascii_password("password".to_string()), Ok("password".to_string()));
    assert_eq!(
        verify_ascii_password("pässwörd1".to_string()),
        Err(NetworkManagerError::PreSharedKey("Not an ASCII password".to_string()))
    );
    assert_eq!(
        verify_ascii_password("short".to_string()),
        Err(NetworkManagerError::PreSharedKey("Password length should be at least 8 characters: 5 len".to_string()))
    );
    assert_eq!(
        verify_ascii_password("x".repeat(33)),
        Err(NetworkManagerError::PreSharedKey("Password length should not exceed 64: 33 len".to_string()))
    );
}

fn settings_of(call: &MethodCall) -> &wifi_captive::settings::SettingsMap {
    match &call.args[0] {
        CallArg::Settings(s) => s,
        _ => panic!("no settings"),
    }
}

fn str_setting(map: &wifi_captive::settings::SettingsMap, section: &str, key: &str) -> Option<String> {
    match map.get(section)?.get(key)? {
        SettingValue::Str(s) => Some(s.clone()),
        _ => None,
    }
}

#[test]
fn adding_a_wifi_connection() {
    let manager = NetworkManager::new();
    let creds = AccessPointCredentials::Wpa { passphrase: "password".to_string() };
    let call = add_wifi_connection(&manager, "home", "wlan0", &creds).unwrap();
    assert_eq!(call.object, "/org/freedesktop/NetworkManager/Settings");
    assert_eq!(call.method, "AddConnection");
    let s = settings_of(&call);
    assert_eq!(str_setting(s, "connection", "id"), Some("home".to_string()));
    assert_eq!(str_setting(s, "connection", "interface-name"), Some("wlan0".to_string()));
    assert_eq!(str_setting(s, "802-11-wireless-security", "key-mgmt"), Some("wpa-psk".to_string()));
    assert_eq!(str_setting(s, "802-11-wireless-security", "psk"), Some("password".to_string()));
    assert!(matches!(s.get("802-11-wireless").unwrap().get("ssid"), Some(SettingValue::Bytes(b)) if b == b"home"));

    let wep = AccessPointCredentials::Wep { passphrase: "short".to_string() };
    assert_eq!(
        add_wifi_connection(&manager, "home", "wlan0", &wep).err(),
        Some(NetworkManagerError::PreSharedKey("Password length should be at least 8 characters: 5 len".to_string()))
    );
    let enterprise = AccessPointCredentials::Enterprise { identity: "me".to_string(), passphrase: "pw".to_string() };
    let call = add_wifi_connection(&manager, "corp", "wlan0", &enterprise).unwrap();
    let s = settings_of(&call);
    assert_eq!(str_setting(s, "802-1x", "phase2-auth"), Some("mschapv2".to_string()));
    assert_eq!(str_setting(s, "802-11-wireless-security", "key-mgmt"), Some("wpa-eap".to_string()));
}

#[test]
fn connecting_a_device() {
    let manager = NetworkManager::new();
    let d = Device::try_new(manager, "/D/4".to_string(), "wlan0".to_string(), 2);
    assert!(matches!(d.connect(DeviceState::Activated), Ok(DeviceStep::Done(DeviceState::Activated))));
    match d.connect(DeviceState::Disconnected) {
        Ok(DeviceStep::CallThenWait { call, target, .. }) => {
            let args: Vec<&str> = call.args.iter().map(path_of).collect();
            assert_eq!(args, vec!["/", "/D/4", "/"]);
            assert_eq!(target, DeviceState::Activated);
        },
        _ => panic!("expected a call"),
    }
    match d.disconnect(DeviceState::Activated) {
        Ok(DeviceStep::CallThenWait { call, target, .. }) => {
            assert_eq!(call.object, "/D/4");
            assert_eq!(call.method, "Disconnect");
            assert_eq!(target, DeviceState::Disconnected);
        },
        _ => panic!("expected a call"),
    }
    assert!(matches!(d.disconnect(DeviceState::Disconnected), Ok(DeviceStep::Done(DeviceState::Disconnected))));
    let by_iface = Device::by_interface(manager, "wlan0");
    assert_eq!(by_iface.method, "GetDeviceByIpIface");
    assert!(matches!(&by_iface.args[0], CallArg::Text(t) if t == "wlan0"));
}

#[test]
fn backend_credentials_are_a_separate_type() {
    let c = BackendCredentials::Wpa { passphrase: "password".to_string() };
    assert!(matches!(c, BackendCredentials::Wpa { .. }));
}

/// The state a connection reaches when the test system carries out a step.
fn connection_after(step: ConnectionStep) -> ConnectionState {
    match step {
        ConnectionStep::Done(s) => s,
        ConnectionStep::WaitFor { target, timeout } => {
            assert!(wait_for_connection(target, target, 1, timeout));
            target
        },
        ConnectionStep::CallThenWait { target, timeout, .. } => {
            assert!(wait_for_connection(target, target, 1, timeout));
            target
        },
    }
}

#[test]
fn test_connection_enable_disable() {
    let manager = NetworkManager::new();
    let connections = list_connections(
        &manager,
        vec![
            ("/org/freedesktop/NetworkManager/Settings/1".to_string(), settings("Other", "infrastructure")),
            ("/org/freedesktop/NetworkManager/Settings/2".to_string(), settings("Resin.io Wifi", "infrastructure")),
        ],
    );
    let ssid = "Resin.io Wifi";
    let connection = connections
        .iter()
        .filter(|c| c.settings.ssid.to_string().unwrap() == ssid)
        .nth(0)
        .unwrap();

    let state = connection.get_state(Some(ConnectionState::Activated));
    if state == ConnectionState::Activated {
        let step = connection.deactivate(state, Some("/org/freedesktop/NetworkManager/ActiveConnection/3".to_string())).unwrap();
        let state = connection_after(step);
        assert_eq!(ConnectionState::Deactivated, state);

        let state = connection_after(connection.activate(state).unwrap());
        assert_eq!(ConnectionState::Activated, state);
    } else {
        let state = connection_after(connection.activate(state).unwrap());
        assert_eq!(ConnectionState::Activated, state);

        let state = connection_after(connection.deactivate(state, None).unwrap());
        assert_eq!(ConnectionState::Deactivated, state);
    }
}

fn device_after(step: DeviceStep) -> DeviceState {
    match step {
        DeviceStep::Done(s) => s,
        DeviceStep::CallThenWait { target, .. } => target,
    }
}

#[test]
fn test_device_connect_disconnect() {
    let manager = NetworkManager::new();
    let devices = get_devices(
        &manager,
        vec![
            ("/org/freedesktop/NetworkManager/Devices/1".to_string(), "eth0".to_string(), 1),
            ("/org/freedesktop/NetworkManager/Devices/2".to_string(), "wlan0".to_string(), 2),
        ],
    );
    let i = devices.iter().position(|d| *d.device_type() == DeviceType::WiFi).unwrap();
    let device = &devices[i];

    let state = DeviceState::Activated;
    if state == DeviceState::Activated {
        let state = device_after(device.disconnect(state).unwrap());
        assert_eq!(DeviceState::Disconnected, state);

        let state = device_after(device.connect(state).unwrap());
        assert_eq!(DeviceState::Activated, state);
    } else {
        let state = device_after(device.connect(state).unwrap());
        assert_eq!(DeviceState::Activated, state);

        let state = device_after(device.disconnect(state).unwrap());
        assert_eq!(DeviceState::Disconnected, state);
    }
}
