use std::convert::TryInto;
use wifi_captive::network_manager::connection::ssid::Ssid;
use wifi_captive::network_manager::errors::NetworkManagerError;

#[test]
fn test_ssid_from_bytes_as_bytes() {
    let vec_u8 = vec![0x68_u8, 0x65_u8, 0x6c_u8, 0x6c_u8, 0x6f_u8];
    let ssid = Ssid::from_bytes(vec_u8.clone());
    assert_eq!(vec_u8, *ssid.data());
}

#[test]
fn test_ssid_from_bytes_eq() {
    let from_string: Ssid = "hello".try_into().unwrap();
    let vec_u8 = vec![0x68_u8, 0x65_u8, 0x6c_u8, 0x6c_u8, 0x6f_u8];
    let from_vec_u8 = Ssid::from_bytes(vec_u8);
    assert_eq!(from_string, from_vec_u8);
}

#[test]
fn test_ssid_debug() {
    let ssid = Ssid::from_bytes(b"hello\0\x7F".to_vec());
    let debug = ssid.debug_text();
    assert_eq!(debug, "\"hello\\x00\\x7f\"");
}

#[test]
fn ssid_debug_escapes_quotes_and_control_bytes() {
    let ssid = Ssid::from_bytes(b"a\"b\\c\td\n\xff".to_vec());
    assert_eq!(ssid.debug_text(), "\"a\\\"b\\\\c\\td\\n\\xff\"");
}

#[test]
fn ssid_too_long_is_rejected() {
    let r = Ssid::try_from_str("0123456789012345678901234567890123");
    assert_eq!(
        r,
        Err(NetworkManagerError::Ssid("ssid length should not exceed 32: 34 len".to_string()))
    );
    let ok = Ssid::try_from_str("01234567890123456789012345678901").unwrap();
    assert_eq!(ok.data().len(), 32);
}

#[test]
fn ssid_as_text() {
    assert_eq!(Ssid::from_bytes(b"caf\xc3\xa9".to_vec()).to_string(), Some("café".to_string()));
    assert_eq!(Ssid::from_bytes(vec![0xff, 0xfe]).to_string(), None);
    assert!(Ssid::new().data().is_empty());
    assert_eq!(Ssid::from_bytes(vec![1, 2]).into_vec(), vec![1, 2]);
    assert_eq!(Ssid::from_bytes(vec![3]).as_ref(), &[3u8][..]);
}

#[test]
fn ssid_same_as_compares_octets() {
    let a = Ssid::from_bytes(b"net".to_vec());
    assert!(a.same_as(&Ssid::from_bytes(b"net".to_vec())));
    assert!(!a.same_as(&Ssid::from_bytes(b"nets".to_vec())));
    assert!(!a.same_as(&Ssid::from_bytes(b"nex".to_vec())));
}
