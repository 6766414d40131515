use wifi_captive::network_manager::connection::ssid::Ssid;
use wifi_captive::network_manager::dbus::{CallArg, MethodCall};
use wifi_captive::network_manager::device::ethernet::EthernetDevice;
use wifi_captive::network_manager::device::wifi::WiFiDevice;
use wifi_captive::network_manager::device::wifi_ap::{
    get_access_point, get_access_point_security, request_access_point_scan, security_string, AccessPoint,
    AccessPointCredentials, Security,
};
use wifi_captive::network_manager::device::wifi_sta::create_hotspot;
use wifi_captive::network_manager::device::{Device, PathGetter};
use wifi_captive::network_manager::errors::NetworkManagerError;
use wifi_captive::network_manager::nm::NetworkManager;
use wifi_captive::settings::{SettingValue, SettingsMap};
use wifi_captive::text::Ipv4Address;

fn wifi_device() -> Device {
    Device::try_new(NetworkManager::new(), "/org/freedesktop/NetworkManager/Devices/3".to_string(), "wlan0".to_string(), 2)
}

fn ap(path: &str, ssid: &str, strength: u32) -> AccessPoint {
    AccessPoint {
        path: path.to_string(),
        ssid: Ssid::from_bytes(ssid.as_bytes().to_vec()),
        strength,
        security: get_access_point_security(0, 0, 0).unwrap(),
    }
}

fn settings_of(call: &MethodCall) -> &SettingsMap {
    match &call.args[0] {
        CallArg::Settings(s) => s,
        _ => panic!("no settings"),
    }
}

fn str_setting(map: &SettingsMap, section: &str, key: &str) -> Option<String> {
    match map.get(section)?.get(key)? {
        SettingValue::Str(s) => Some(s.clone()),
        _ => None,
    }
}

fn path_of(arg: &CallArg) -> &str {
    match arg {
        CallArg::ObjectPath(p) => p.as_str(),
        _ => panic!("not a path"),
    }
}

#[test]
fn access_points_strongest_first() {
    let d = wifi_device();
    let found = vec![
        Some(ap("/AP/1", "a", 40)),
        None,
        Some(ap("/AP/2", "b", 80)),
        Some(ap("/AP/3", "c", 40)),
        Some(ap("/AP/4", "d", 60)),
    ];
    let aps = d.get_access_points(found);
    let paths: Vec<&str> = aps.iter().map(|a| a.path.as_str()).collect();
    assert_eq!(paths, vec!["/AP/2", "/AP/4", "/AP/3", "/AP/1"]);
    let found = d.find_access_point(aps, &Ssid::from_bytes(b"c".to_vec())).unwrap();
    assert_eq!(found.path, "/AP/3");
    assert!(d.find_access_point(vec![ap("/AP/1", "a", 1)], &Ssid::from_bytes(b"z".to_vec())).is_none());
}

#[test]
fn access_point_data() {
    let a = get_access_point("/AP/7".to_string(), Some(b"net".to_vec()), 55, get_access_point_security(1, 0, 0x108).unwrap()).unwrap();
    assert_eq!(a.strength, 55);
    assert_eq!(security_string(&a), "wpa");
    assert!(get_access_point("/AP/7".to_string(), None, 55, get_access_point_security(0, 0, 0).unwrap()).is_none());
    assert!(get_access_point_security(0x10, 0, 0).is_none());
    assert_eq!(get_access_point_security(1, 0, 0).unwrap().as_str(), "wep");
    let none: Security = get_access_point_security(0, 0, 0).unwrap();
    assert_eq!(none.as_str(), "none");
}

#[test]
fn scanning_and_connecting() {
    let d = wifi_device();
    let scan = d.request_scan().unwrap();
    assert_eq!(scan.object, "/org/freedesktop/NetworkManager/Devices/3");
    assert_eq!(scan.interface, "org.freedesktop.NetworkManager.Device.Wireless");
    assert_eq!(scan.method, "RequestScan");
    assert!(request_access_point_scan(&NetworkManager::new(), "no path").is_err());

    let target = ap("/AP/2", "home", 70);
    let creds = AccessPointCredentials::Wpa { passphrase: "password".to_string() };
    let call = WiFiDevice::connect(&d, &target, &creds).unwrap();
    assert_eq!(call.method, "AddAndActivateConnection");
    let s = settings_of(&call);
    assert_eq!(str_setting(s, "802-11-wireless-security", "psk"), Some("password".to_string()));
    let paths: Vec<&str> = call.args[1..].iter().map(path_of).collect();
    assert_eq!(paths, vec!["/org/freedesktop/NetworkManager/Devices/3", "/AP/2"]);
    let weak = AccessPointCredentials::Wep { passphrase: "é-not-ascii".to_string() };
    assert_eq!(
        WiFiDevice::connect(&d, &target, &weak).err(),
        Some(NetworkManagerError::PreSharedKey("Not an ASCII password".to_string()))
    );
    let added = d.add_connection("home", &AccessPointCredentials::Open).unwrap();
    assert_eq!(str_setting(settings_of(&added), "connection", "interface-name"), Some("wlan0".to_string()));
    assert_eq!(d.path(), "/org/freedesktop/NetworkManager/Devices/3");
}

#[test]
fn hotspots() {
    let d = wifi_device();
    let call = d
        .create_hotspot(Ssid::from_bytes(b"Portal".to_vec()), Some("password".to_string()), Some(Ipv4Address { a: 192, b: 168, c: 42, d: 1 }))
        .unwrap();
    let s = settings_of(&call);
    assert_eq!(str_setting(s, "connection", "id"), Some("Portal".to_string()));
    assert_eq!(str_setting(s, "802-11-wireless", "mode"), Some("ap".to_string()));
    assert_eq!(str_setting(s, "802-11-wireless", "band"), Some("bg".to_string()));
    assert_eq!(str_setting(s, "802-11-wireless", "security"), Some("802-11-wireless-security".to_string()));
    assert_eq!(str_setting(s, "802-11-wireless-security", "key-mgmt"), Some("wpa-psk".to_string()));
    assert_eq!(str_setting(s, "ipv4", "method"), Some("manual".to_string()));
    let paths: Vec<&str> = call.args[1..].iter().map(path_of).collect();
    assert_eq!(paths, vec!["/org/freedesktop/NetworkManager/Devices/3", "/"]);

    let open = create_hotspot(&NetworkManager::new(), "/D/1", "wlan1", Ssid::from_bytes(vec![0xff]), None, None).unwrap();
    let s = settings_of(&open);
    assert_eq!(str_setting(s, "connection", "id"), None);
    assert_eq!(str_setting(s, "ipv4", "method"), Some("shared".to_string()));
    assert!(s.get("802-11-wireless-security").is_none());
    assert_eq!(
        create_hotspot(&NetworkManager::new(), "/D/1", "wlan1", Ssid::new(), Some("short".to_string()), None).err(),
        Some(NetworkManagerError::PreSharedKey("Password length should be at least 8 characters: 5 len".to_string()))
    );
    assert_eq!(
        create_hotspot(&NetworkManager::new(), "D", "wlan1", Ssid::new(), None, None).err(),
        Some(NetworkManagerError::Generic("Invalid object path".to_string()))
    );
}

#[test]
fn ethernet_connection() {
    let d = Device::try_new(NetworkManager::new(), "/D/1".to_string(), "eth0".to_string(), 1);
    let ip = |a, b, c, d| Ipv4Address { a, b, c, d };
    let call = EthernetDevice::connect(&d, ip(10, 0, 0, 5), 24, ip(10, 0, 0, 1), ip(8, 8, 8, 8), ip(1, 1, 1, 1), "lan", "manual", "wired")
        .unwrap();
    let s = settings_of(&call);
    assert_eq!(str_setting(s, "connection", "id"), Some("wired".to_string()));
    assert_eq!(str_setting(s, "connection", "type"), Some("802-3-ethernet".to_string()));
    assert_eq!(str_setting(s, "ipv4", "gateway"), Some("10.0.0.1".to_string()));
    match s.get("ipv4").unwrap().get("dns") {
        Some(SettingValue::UIntList(l)) => assert_eq!(l, &vec![0x0808_0808u32, 0x0101_0101u32]),
        _ => panic!("no dns"),
    }
    let auto = EthernetDevice::connect(&d, ip(0, 0, 0, 0), 0, ip(0, 0, 0, 0), ip(8, 8, 8, 8), ip(1, 1, 1, 1), "", "auto", "dhcp")
        .unwrap();
    assert!(settings_of(&auto).get("ipv4").unwrap().get("gateway").is_none());
}

#[test]
fn device_kinds() {
    let wifi = wifi_device();
    assert!(wifi.as_wifi_device().is_some());
    assert!(wifi.as_ethernet_device().is_none());
    let wired = Device::try_new(NetworkManager::new(), "/D/1".to_string(), "eth0".to_string(), 1);
    assert_eq!(wired.as_ethernet_device().map(|d| d.interface()), Some("eth0"));
    assert!(wired.as_wifi_device().is_none());
}
