use wifi_captive::config::Config;
use wifi_captive::errors::CaptivePortalError;
use wifi_captive::http_server::file_serve::{
    extension, mime_type_from_ext, mime_type_of_file, requested_file, serve_file, FileResponse, FileWrapper,
};
use wifi_captive::http_server::{http_route, update_network, user_requests_wifi_list_refresh, HttpMethod, Route, WifiConnectionRequest};
use wifi_captive::network_interface::{
    credentials_from_data, AccessPointCredentials, ConnectionState, NetworkManagerState, Security, WifiConnection,
    WifiConnectionEvent, WifiConnectionEventType,
};
use wifi_captive::portal::PortalTimer;
use wifi_captive::state_machine::{Action, Outcome, StateMachine};
use wifi_captive::text::Ipv4Address;
use wifi_captive::utils::verify_password;

const PORTAL: Ipv4Address = Ipv4Address { a: 192, b: 168, c: 42, d: 1 };

#[test]
fn unknown_pages_redirect_to_the_portal() {
    assert_eq!(
        serve_file(None, Some("text/html,application/xhtml+xml"), PORTAL, 80),
        FileResponse::Redirect { location: "http://192.168.42.1:80/index.html".to_string() }
    );
    assert_eq!(
        serve_file(None, Some("*/*"), Ipv4Address { a: 10, b: 0, c: 0, d: 7 }, 8080),
        FileResponse::Redirect { location: "http://10.0.0.7:8080/index.html".to_string() }
    );
    assert_eq!(serve_file(None, Some("image/png"), PORTAL, 80), FileResponse::NotFound);
    assert_eq!(serve_file(None, None, PORTAL, 80), FileResponse::NotFound);
}

#[test]
fn files_are_served_with_their_type() {
    let f = FileWrapper::new("ui/index.html".to_string(), b"<html>".to_vec());
    assert_eq!(
        serve_file(Some(f), None, PORTAL, 80),
        FileResponse::Serve { mime: "text/html", contents: b"<html>".to_vec() }
    );
    let f = FileWrapper::new("js/app.min.js".to_string(), vec![]);
    assert_eq!(mime_type_of_file(&f), "application/javascript");
    assert_eq!(f.path(), "js/app.min.js");
    assert_eq!(mime_type_of_file(&FileWrapper::new("LICENSE".to_string(), vec![])), "application/octet-stream");
    assert_eq!(mime_type_of_file(&FileWrapper::new("dir.d/.hidden".to_string(), vec![])), "application/octet-stream");
    assert_eq!(mime_type_from_ext("css"), "text/css");
    assert_eq!(mime_type_from_ext("png"), "image/png");
    assert_eq!(mime_type_from_ext("svg"), "application/octet-stream");
    assert_eq!(extension("a/b.tar.gz"), Some("gz".to_string()));
    assert_eq!(extension("a.b/c"), None);
    assert_eq!(requested_file("/css/site.css"), "css/site.css");
    assert_eq!(FileWrapper::new("x".to_string(), vec![1, 2]).contents(), vec![1, 2]);
}

#[test]
fn routes() {
    assert_eq!(http_route(HttpMethod::Get, "/networks"), Route::Networks);
    assert_eq!(http_route(HttpMethod::Get, "/events"), Route::Events);
    assert_eq!(http_route(HttpMethod::Get, "/refresh"), Route::Refresh);
    assert_eq!(http_route(HttpMethod::Get, "/index.html"), Route::File);
    assert_eq!(http_route(HttpMethod::Post, "/connect"), Route::Connect);
    assert_eq!(http_route(HttpMethod::Post, "/networks"), Route::NotFound);
    assert_eq!(http_route(HttpMethod::Other, "/connect"), Route::NotFound);
    assert_eq!(user_requests_wifi_list_refresh(true), 200);
    assert_eq!(user_requests_wifi_list_refresh(false), 500);
}

fn wifi(ssid: &str, strength: u8) -> WifiConnection {
    WifiConnection {
        ssid: ssid.to_string(),
        hw: "00:11".to_string(),
        security: "wpa",
        strength,
        frequency: 2412,
        is_own: false,
    }
}

#[test]
fn network_list_updates() {
    let mut list = vec![wifi("a", 10), wifi("b", 20)];
    update_network(&mut list, &WifiConnectionEvent { access_point: wifi("b", 55), event: WifiConnectionEventType::Added });
    assert_eq!(list.iter().map(|w| (w.ssid.as_str(), w.strength)).collect::<Vec<_>>(), vec![("a", 10), ("b", 55)]);
    update_network(&mut list, &WifiConnectionEvent { access_point: wifi("c", 5), event: WifiConnectionEventType::Added });
    assert_eq!(list.len(), 3);
    update_network(&mut list, &WifiConnectionEvent { access_point: wifi("a", 0), event: WifiConnectionEventType::Removed });
    assert_eq!(list.iter().map(|w| w.ssid.as_str()).collect::<Vec<_>>(), vec!["b", "c"]);
    update_network(&mut list, &WifiConnectionEvent { access_point: wifi("zzz", 0), event: WifiConnectionEventType::Removed });
    assert_eq!(list.iter().map(|w| w.ssid.as_str()).collect::<Vec<_>>(), vec!["b", "c"]);
}

#[test]
fn passwords() {
    assert_eq!(verify_password("12345678"), Ok(()));
    assert_eq!(
        verify_password("1234567"),
        Err(CaptivePortalError::InvalidSharedKey("Password length should be at least 8 characters: 7 len".to_string()))
    );
    assert_eq!(
        verify_password(&"x".repeat(33)),
        Err(CaptivePortalError::InvalidSharedKey("Password length should not exceed 64: 33 len".to_string()))
    );
    assert_eq!(
        verify_password("ääää"),
        Err(CaptivePortalError::InvalidSharedKey("Password length should be at least 8 characters: 4 len".to_string()))
    );
    assert_eq!(verify_password("ääääääää"), Ok(()));
    assert!(verify_password(&"ä".repeat(20)).is_ok());
}

#[test]
fn user_credentials() {
    assert_eq!(
        credentials_from_data("pw".to_string(), Some("me".to_string()), Security::ENTERPRISE),
        Ok(AccessPointCredentials::Enterprise { identity: "me".to_string(), passphrase: "pw".to_string() })
    );
    assert_eq!(
        credentials_from_data("pw".to_string(), None, Security::ENTERPRISE),
        Err(CaptivePortalError::NoSharedKeyProvided)
    );
    assert_eq!(credentials_from_data("pw".to_string(), None, Security::NONE), Ok(AccessPointCredentials::Open));
    assert_eq!(Security::try_from("wpa2".to_string()), Ok(Security::WPA2));
    assert_eq!(Security::try_from("".to_string()), Ok(Security::NONE));
    assert!(Security::try_from("wpa3".to_string()).is_err());
    assert_eq!(Security::WPA2.as_str(), "wpa");
    assert_eq!(
        wifi_captive::nm::security::credentials_from_data(Some("pw".to_string()), None, "wep"),
        Ok(wifi_captive::nm::security::AccessPointCredentials::Wep { passphrase: "pw".to_string() })
    );
    assert!(wifi_captive::nm::security::credentials_from_data(None, None, "wpa").is_err());
}

#[test]
fn configuration_defaults_and_validation() {
    let c = Config::default();
    assert_eq!(c.ssid, "WiFi Connect");
    assert_eq!(c.gateway, PORTAL);
    assert_eq!(c.listening_port, 80);
    assert_eq!(c.dns_port, 53);
    assert_eq!(c.dhcp_port, 67);
    assert_eq!(c.wait_before_reconfigure, 20);
    assert_eq!(c.retry_in, 360);
    assert_eq!(c.validate(), Ok(()));
    let mut short = Config::default();
    short.passphrase = Some("abc".to_string());
    assert!(matches!(short.validate(), Err(CaptivePortalError::InvalidSharedKey(_))));
    let mut empty = Config::default();
    empty.passphrase = Some(String::new());
    assert_eq!(empty.validate(), Ok(()));
}

fn request(mode: &str, passphrase: Option<&str>) -> WifiConnectionRequest {
    WifiConnectionRequest {
        mode: mode.to_string(),
        ssid: "home".to_string(),
        identity: None,
        passphrase: passphrase.map(|p| p.to_string()),
        hw: Some("11:22".to_string()),
    }
}

#[test]
fn state_machine_walk() {
    let s = StateMachine::StartUp(Config::default());
    assert_eq!(s.action(), Ok(Action::StartBackend { interface: None }));
    let s = s.progress(Outcome::BackendState(NetworkManagerState::Disconnected)).unwrap().unwrap();
    assert!(matches!(s, StateMachine::TryReconnect(_)));
    let s = s.progress(Outcome::AutoConnected(Some(false))).unwrap().unwrap();
    assert!(matches!(s, StateMachine::ActivatePortal(_)));
    assert!(matches!(s.action(), Ok(Action::OpenPortal { timeout_secs: 360, hotspot_timeout_secs: 25, .. })));
    let s = s.progress(Outcome::PortalClosed(Some(Ok(Some(request("wpa", Some("password"))))))).unwrap().unwrap();
    match s.action() {
        Ok(Action::ConnectTo { ssid, credentials, hw }) => {
            assert_eq!(ssid, "home");
            assert_eq!(credentials, wifi_captive::nm::security::AccessPointCredentials::Wpa { passphrase: "password".to_string() });
            assert_eq!(hw, Some("11:22".to_string()));
        },
        other => panic!("unexpected {:?}", other),
    }
    let s = s.progress(Outcome::ConnectResult(Some(ConnectionState::Activated))).unwrap().unwrap();
    match &s {
        StateMachine::Connected(c) => {
            assert_eq!(c.wifi_ssid, Some("home".to_string()));
            assert_eq!(c.wifi_passphrase, Some("password".to_string()));
            assert_eq!(c.wifi_identity, None);
            assert_eq!(c.ssid, "WiFi Connect");
            assert_eq!(c.passphrase, None);
        },
        other => panic!("unexpected {:?}", other),
    }
    assert!(matches!(s.action(), Ok(Action::WatchConnection { retry_in_secs: 360, connectivity_wait_secs: 5, .. })));
    let s = s.progress(Outcome::ConnectionWatched(Some(NetworkManagerState::Disconnected))).unwrap().unwrap();
    assert!(matches!(s, StateMachine::TryReconnect(_)));
    assert_eq!(s.action(), Ok(Action::AutoConnect { timeout_secs: 20 }));
    let s = s.progress(Outcome::AutoConnected(None)).unwrap().unwrap();
    assert_eq!(s, StateMachine::Exit);
    assert_eq!(s.action(), Ok(Action::Quit));
    assert_eq!(s.progress(Outcome::Stopped), Ok(None));
}

#[test]
fn state_machine_failures() {
    let s = StateMachine::Connect(Config::default(), request("wpa3", None));
    assert_eq!(s.action(), Err(CaptivePortalError::Generic("Expected an encryption mode. Got: wpa3".to_string())));
    assert_eq!(
        StateMachine::Connect(Config::default(), request("wpa", None)).action(),
        Err(CaptivePortalError::NoSharedKeyProvided)
    );
    let s = s.progress(Outcome::ConnectResult(None)).unwrap().unwrap();
    assert!(matches!(s, StateMachine::ActivatePortal(_)));
    assert!(s.fits(&Outcome::HotspotFailed));
    assert!(!s.fits(&Outcome::Stopped));
    let s = s.progress(Outcome::HotspotFailed).unwrap().unwrap();
    assert!(matches!(s, StateMachine::TryReconnect(_)));
    let portal = StateMachine::ActivatePortal(Config::default());
    assert_eq!(portal.progress(Outcome::PortalClosed(Some(Err(CaptivePortalError::HttpRoutingFailed)))), Err(CaptivePortalError::HttpRoutingFailed));
    let mut quitting = Config::default();
    quitting.quit_after_connected = true;
    let s = StateMachine::Connected(quitting);
    assert_eq!(s.progress(Outcome::ConnectionWatched(Some(NetworkManagerState::Connected))), Ok(Some(StateMachine::Exit)));
    let s = StateMachine::StartUp(Config::default());
    assert!(matches!(s.progress(Outcome::BackendState(NetworkManagerState::Connecting)), Ok(Some(StateMachine::TryReconnect(_)))));
}

#[test]
fn error_messages() {
    assert_eq!(CaptivePortalError::InvalidSharedKey("x".to_string()).message(), "Invalid Passphrase: x");
    assert_eq!(
        CaptivePortalError::DBus("org.Err".to_string(), "bad".to_string()).message(),
        "Dbus Error: org.Err - bad"
    );
    assert_eq!(CaptivePortalError::IO("denied".to_string(), "dns".to_string()).message(), "dns - denied");
    assert_eq!(CaptivePortalError::NotRequiredConnectivity(NetworkManagerState::Connecting).message(), "Connectivity is limited");
    assert_eq!(CaptivePortalError::NoSharedKeyProvided.message(), "Passphrase required!");
}

#[test]
fn the_portal_timer_restarts_when_a_client_connects() {
    let mut timer = PortalTimer::new(360_000);
    assert!(!timer.tick(359_999, false));
    assert!(!timer.tick(359_999, true));
    assert_eq!(timer.last_activity_ms, 359_999);
    assert!(!timer.tick(700_000, false));
    assert!(timer.tick(719_999, false));
    let mut quiet = PortalTimer::new(1000);
    assert!(quiet.tick(1000, false));
}
