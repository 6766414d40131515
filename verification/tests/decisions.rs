use wifi_captive::config::Config;
use wifi_captive::errors::{map_to_err, BindErrorKind, CaptivePortalError};
use wifi_captive::network_backend::nm::connectivity::{connectivity_condition, connectivity_lost_condition};
use wifi_captive::network_interface::NetworkManagerState as BackendState;
use wifi_captive::state_machine::{Outcome, StateMachine};
use wifi_captive::network_backend::iwd::access_points_changed::is_network_change;
use wifi_captive::network_backend::iwd::station::is_started_change;
use wifi_captive::network_backend::nm::access_points_changed::{helper_1, helper_2};
use wifi_captive::network_backend::nm::backend::NetworkBackend;
use wifi_captive::network_interface::WifiConnectionEventType;
use wifi_captive::network_manager::connection::ssid::Ssid;
use wifi_captive::network_manager::connection::state::get_connection_state;
use wifi_captive::network_manager::connection::wifi_settings::{get_connection_settings, WiFiConnectionSettings};
use wifi_captive::network_manager::connection::{
    delete_access_point_connections, delete_connection_if_exists, find_connection, get_active_connection_by_path,
    prepare_wifi_security_settings, Connection,
};
use wifi_captive::network_manager::device::{get_active_connection_devices, wait_for_device};
use wifi_captive::network_manager::errors::NetworkManagerError;
use wifi_captive::network_manager::nm::NetworkManager;
use wifi_captive::nm::connectivity::{
    connection_state_reached, connectivity_reached, expected_connectivity, network_manager_state_connected,
    network_manager_state_not_connected, network_manager_state_temp, state_reached, ConnectionState, Connectivity,
    DeviceState, DeviceType, NetworkManagerState,
};
use wifi_captive::nm::security::AccessPointCredentials;
use wifi_captive::portal::PortalExits;
use wifi_captive::settings::{str_value, SettingValue, SettingsMap, VariantMap};
use wifi_captive::text::Ipv4Address;

#[test]
fn bind_error_messages() {
    let ip = Ipv4Address { a: 192, b: 168, c: 42, d: 1 };
    assert_eq!(
        map_to_err(&BindErrorKind::AddrInUse, ip, 53, "DNS Server", "wifi-captive"),
        CaptivePortalError::Generic("Could not bind to port 53 for DNS Server\nThe port is in use.".to_string())
    );
    assert_eq!(
        map_to_err(&BindErrorKind::PermissionDenied, ip, 80, "HTTP Web Interface", "/usr/bin/wifi-captive"),
        CaptivePortalError::Generic(
            "You require elevated permissions to bind to port 80 for HTTP Web Interface.\nYou may use `sudo setcap CAP_NET_BIND_SERVICE=+eip /usr/bin/wifi-captive`"
                .to_string()
        )
    );
    assert_eq!(
        map_to_err(&BindErrorKind::AddrNotAvailable, ip, 67, "DHCP Server", "x"),
        CaptivePortalError::Generic(
            "Could not bind to 192.168.42.1:67 for DHCP Server\nThe gateway address is not assigned to any interface!".to_string()
        )
    );
    assert_eq!(
        map_to_err(&BindErrorKind::Other("ConnectionRefused".to_string()), ip, 67, "DHCP Server", "x"),
        CaptivePortalError::Generic("Could not bind to 192.168.42.1:67 for DHCP Server\nThis error happened: ConnectionRefused".to_string())
    );
}

#[test]
fn portal_closes_its_server_once() {
    let mut exits = PortalExits::new();
    assert!(!exits.poll(false, false, false));
    assert!(exits.http_open);
    assert!(exits.poll(false, false, true));
    assert!(!exits.http_open && !exits.timeout_pending && exits.cancel_pending);
    assert!(!exits.poll(true, true, true));
    assert!(!exits.cancel_pending && !exits.hotspot_pending);
}

#[test]
fn enabling_networking() {
    let b = NetworkBackend { wifi_device_path: "/D".to_string(), hw: "h".to_string(), interface_name: "w".to_string() };
    let steps = b.enable_networking_and_wifi(false, true, true);
    assert!(steps.enable_networking && !steps.enable_wireless && steps.enable_connectivity_check);
}

#[test]
fn signal_filters() {
    assert!(is_network_change(&vec!["net.connman.iwd.Device".to_string(), "net.connman.iwd.Network".to_string()]));
    assert!(!is_network_change(&vec!["net.connman.iwd.Device".to_string()]));
    assert!(is_started_change("net.connman.iwd.AccessPoint", &vec!["Name".to_string(), "Started".to_string()]));
    assert!(!is_started_change("net.connman.iwd.AccessPoint", &vec!["Name".to_string()]));
    assert!(!is_started_change("net.connman.iwd.Device", &vec!["Started".to_string()]));
    let added = helper_1("/AP/1".to_string());
    assert_eq!(added.event, WifiConnectionEventType::Added);
    assert_eq!(helper_2("/AP/2".to_string()).event, WifiConnectionEventType::Removed);
    assert_eq!(helper_2("/AP/2".to_string()).path, "/AP/2");
}

#[test]
fn state_sets_and_waiting_conditions() {
    let connected = network_manager_state_connected();
    assert!(connected.contains(NetworkManagerState::ConnectedSite));
    assert!(!connected.contains(NetworkManagerState::Connecting));
    assert!(network_manager_state_not_connected().contains(NetworkManagerState::Asleep));
    assert!(network_manager_state_temp().contains(NetworkManagerState::Disconnecting));
    assert!(state_reached(connected, NetworkManagerState::ConnectedGlobal, false));
    assert!(state_reached(connected, NetworkManagerState::Disconnected, true));
    assert!(expected_connectivity(true).contains(Connectivity::Full));
    assert!(!expected_connectivity(true).contains(Connectivity::Limited));
    assert!(expected_connectivity(false).contains(Connectivity::Limited));
    assert!(!connectivity_reached(expected_connectivity(false), Connectivity::Portal, true));
    assert!(connectivity_reached(expected_connectivity(true), Connectivity::Portal, true));
    assert!(connection_state_reached(ConnectionState::Activated, ConnectionState::Activated, false));
    assert!(connection_state_reached(ConnectionState::Activating, ConnectionState::Deactivated, true));
    assert_eq!(ConnectionState::from_code(2), ConnectionState::Activated);
    assert_eq!(DeviceState::from_code(100), DeviceState::Activated);
    assert_eq!(DeviceType::from_code(2), DeviceType::WiFi);
    assert_eq!(DeviceType::from_code(99), DeviceType::Unknown);
    assert_eq!(get_connection_state(Some(2)), ConnectionState::Activated);
    assert_eq!(get_connection_state(None), ConnectionState::Unknown);
    assert!(wait_for_device(DeviceState::Disconnected, DeviceState::Deactivating, 5, 5));
    assert!(!wait_for_device(DeviceState::Disconnected, DeviceState::Deactivating, 4, 5));
}

fn stored(id: &str, ssid: &[u8], kind: &str, mode: &str) -> WiFiConnectionSettings {
    WiFiConnectionSettings {
        kind: kind.to_string(),
        id: id.to_string(),
        uuid: String::new(),
        ssid: Ssid::from_bytes(ssid.to_vec()),
        mode: mode.to_string(),
    }
}

#[test]
fn finding_and_deleting_stored_connections() {
    let m = NetworkManager::new();
    let conns = vec![
        Connection::init(m, "/S/1".to_string(), stored("a", b"home", "802-11-wireless", "infrastructure")),
        Connection::init(m, "/S/2".to_string(), stored("b", b"Hotspot", "802-11-wireless", "ap")),
        Connection::init(m, "/S/3".to_string(), stored("c", b"home", "802-3-ethernet", "")),
        Connection::init(m, "/S/4".to_string(), stored("d", b"home", "802-11-wireless", "infrastructure")),
        Connection::init(m, "/S/5".to_string(), stored("e", &[0xff], "802-11-wireless", "ap")),
    ];
    assert_eq!(find_connection(&conns, "home"), Some(0));
    assert_eq!(find_connection(&conns, "work"), None);
    assert_eq!(delete_connection_if_exists(&conns, "home"), vec![0, 3]);
    assert_eq!(delete_access_point_connections(&conns), vec![1, 4]);
    assert_eq!(conns[2].get_state(Some(ConnectionState::Activating)), ConnectionState::Activating);
    assert_eq!(conns[2].get_state(None), ConnectionState::Deactivated);
    let active = vec![
        ("/A/1".to_string(), Some("/S/9".to_string())),
        ("/A/2".to_string(), None),
        ("/A/3".to_string(), Some("/S/4".to_string())),
    ];
    assert_eq!(get_active_connection_by_path("/S/4", &active), Some("/A/3".to_string()));
    assert_eq!(get_active_connection_by_path("/S/7", &active), None);
    assert_eq!(conns[0].get_devices(None).len(), 0);
    let devices = conns[0].get_devices(Some(vec![("/D/1".to_string(), "wlan0".to_string(), 2)]));
    assert_eq!(devices[0].interface(), "wlan0");
    assert_eq!(get_active_connection_devices(&m, vec![]).len(), 0);
}

fn section(entries: Vec<(&str, SettingValue)>) -> VariantMap {
    let mut m = VariantMap::new();
    for (k, v) in entries {
        m.insert(k.to_string(), v);
    }
    m
}

#[test]
fn reading_stored_settings() {
    let sections = vec![
        ("connection".to_string(), section(vec![("id", str_value("home")), ("type", str_value("802-11-wireless"))])),
        ("802-11-wireless".to_string(), section(vec![("ssid", SettingValue::Bytes(b"home".to_vec())), ("mode", str_value("ap"))])),
        ("ipv6".to_string(), section(vec![("id", str_value("other"))])),
    ];
    let s = get_connection_settings(&sections).unwrap();
    assert_eq!(s.id, "other");
    assert_eq!(s.kind, "802-11-wireless");
    assert_eq!(s.mode, "ap");
    assert_eq!(s.ssid, Ssid::from_bytes(b"home".to_vec()));
    assert_eq!(s.uuid, "");
    let bad = vec![("802-11-wireless".to_string(), section(vec![("ssid", str_value("home"))]))];
    assert!(get_connection_settings(&bad).is_err());
}

#[test]
fn security_sections() {
    let mut settings = SettingsMap::new();
    let wep = AccessPointCredentials::Wep { passphrase: "passphrase".to_string() };
    assert_eq!(prepare_wifi_security_settings(&wep, &mut settings), Ok(()));
    let security = settings.get("802-11-wireless-security").unwrap();
    assert_eq!(security.get("wep-key-type"), Some(&SettingValue::UInt(2)));
    assert_eq!(security.get("wep-key0"), Some(&SettingValue::Str("passphrase".to_string())));
    let mut untouched = SettingsMap::new();
    let short = AccessPointCredentials::Wpa { passphrase: "pw".to_string() };
    assert_eq!(
        prepare_wifi_security_settings(&short, &mut untouched),
        Err(NetworkManagerError::PreSharedKey("Password length should be at least 8 characters: 2 len".to_string()))
    );
    assert!(untouched.get("802-11-wireless-security").is_none());
    let mut open = SettingsMap::new();
    assert_eq!(prepare_wifi_security_settings(&AccessPointCredentials::Open, &mut open), Ok(()));
    assert!(open.entries().is_empty());
}

#[test]
fn dictionaries_keep_the_last_value() {
    let mut m = VariantMap::new();
    m.insert("k".to_string(), SettingValue::Bool(true));
    m.insert("k".to_string(), SettingValue::Byte(3));
    assert_eq!(m.get("k"), Some(&SettingValue::Byte(3)));
    assert_eq!(m.get("x"), None);
}

#[test]
fn states_carry_the_configuration_unchanged() {
    let mut config = Config::default();
    config.ssid = "Portal".to_string();
    config.retry_in = 5;
    let expected = Config { ssid: "Portal".to_string(), retry_in: 5, ..Config::default() };
    let s = StateMachine::StartUp(config).progress(Outcome::BackendState(BackendState::Asleep));
    assert_eq!(s, Ok(Some(StateMachine::TryReconnect(expected))));
}

#[test]
fn start_up_without_connection_tries_to_reconnect() {
    for state in [
        BackendState::Unknown,
        BackendState::Asleep,
        BackendState::Disconnected,
        BackendState::Disconnecting,
        BackendState::Connecting,
    ] {
        let s = StateMachine::StartUp(Config::default()).progress(Outcome::BackendState(state));
        assert_eq!(s, Ok(Some(StateMachine::TryReconnect(Config::default()))));
    }
    for state in [BackendState::ConnectedLimited, BackendState::Connected] {
        let s = StateMachine::StartUp(Config::default()).progress(Outcome::BackendState(state));
        assert_eq!(s, Ok(Some(StateMachine::Connected(Config::default()))));
    }
}

#[test]
fn losing_connectivity_is_not_being_connected() {
    for state in [
        BackendState::Unknown,
        BackendState::Asleep,
        BackendState::Disconnected,
        BackendState::Disconnecting,
        BackendState::Connecting,
        BackendState::ConnectedLimited,
        BackendState::Connected,
    ] {
        for internet in [false, true] {
            assert_eq!(connectivity_lost_condition(state, internet), !connectivity_condition(state, internet));
        }
    }
}

#[test]
fn an_ssid_from_text_reads_back_as_the_text() {
    for text in ["café", "", "WiFi Connect", "0123456789abcdef0123456789abcdef"] {
        assert_eq!(Ssid::try_from_str(text).unwrap().to_string(), Some(text.to_string()));
    }
}

#[test]
fn device_type_codes() {
    assert_eq!(DeviceType::from_code(1), DeviceType::Ethernet);
    assert_eq!(DeviceType::from_code(14), DeviceType::Generic);
    assert_eq!(DeviceType::from_code(-1), DeviceType::Unknown);
}
