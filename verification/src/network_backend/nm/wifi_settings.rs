//! A network manager wifi connection does not have convenient properties for all its
//! settings. Instead settings are submitted and retrieved in a generic two level
//! dictionary. This module creates and decodes those dictionaries.

use vstd::prelude::*;
use vstd::utf8::{encode_utf8, decode_utf8, valid_utf8};
use crate::errors::CaptivePortalError;
use crate::network_interface::{AccessPointCredentials, SSID};
use crate::network_manager::utils::{add_str, add_string, add_val};
use crate::settings::{AddressEntry, SettingValue, SettingsMap, ValueView, VariantMap};
use crate::text::{owned, spec_contains, str_bytes, str_contains, str_eq, string_from_utf8, Ipv4Address, ipv4_text};
use crate::utils::{password_ok, password_problem, verify_password};

verus! {

/// The network manager's code for a WEP key given as passphrase.
pub const NM_WEP_KEY_TYPE_PASSPHRASE: u8 = 2;

#[derive(Debug, Copy, Clone, Eq, PartialEq, Structural)]
pub enum WifiConnectionMode {
    AP,
    Infrastructure,
    AdHoc,
}

/// The parts of a stored wifi connection that the service looks at.
#[derive(Debug, PartialEq)]
pub struct WiFiConnectionSettings {
    pub id: String,
    pub uuid: String,
    pub ssid: SSID,
    pub mode: WifiConnectionMode,
    pub seen_bssids: Vec<String>,
}

/// A section holding one string value.
pub open spec fn section1(k: Seq<char>, v: ValueView) -> Map<Seq<char>, ValueView> {
    Map::empty().insert(k, v)
}

/// True iff the credentials carry an acceptable passphrase where one is checked.
pub open spec fn credentials_ok(c: AccessPointCredentials) -> bool {
    match c {
        AccessPointCredentials::Wep { passphrase } => password_ok(passphrase@),
        AccessPointCredentials::Wpa { passphrase } => password_ok(passphrase@),
        _ => true,
    }
}

/// The error text for credentials that are not acceptable.
pub open spec fn credentials_problem(c: AccessPointCredentials) -> Seq<char> {
    match c {
        AccessPointCredentials::Wep { passphrase } => password_problem(passphrase@),
        AccessPointCredentials::Wpa { passphrase } => password_problem(passphrase@),
        _ => Seq::empty(),
    }
}

/// The settings after the security sections for the credentials were added.
pub open spec fn with_security(
    s: Map<Seq<char>, Map<Seq<char>, ValueView>>,
    c: AccessPointCredentials,
) -> Map<Seq<char>, Map<Seq<char>, ValueView>> {
    match c {
        AccessPointCredentials::Wep { passphrase } => s.insert(
            "802-11-wireless-security"@,
            Map::empty().insert("wep-key-type"@, ValueView::Byte(2)).insert(
                "wep-key0"@,
                ValueView::Str(passphrase@),
            ),
        ),
        AccessPointCredentials::Wpa { passphrase } => s.insert(
            "802-11-wireless-security"@,
            Map::empty().insert("key-mgmt"@, ValueView::Str("wpa-psk"@)).insert(
                "psk"@,
                ValueView::Str(passphrase@),
            ),
        ),
        AccessPointCredentials::Enterprise { identity, passphrase } => s.insert(
            "802-11-wireless-security"@,
            section1("key-mgmt"@, ValueView::Str("wpa-eap"@)),
        ).insert(
            "802-1x"@,
            Map::empty().insert("eap"@, ValueView::StrList(seq!["peap"@])).insert(
                "identity"@,
                ValueView::Str(identity@),
            ).insert("password"@, ValueView::Str(passphrase@)).insert(
                "phase2-auth"@,
                ValueView::Str("mschapv2"@),
            ),
        ),
        AccessPointCredentials::Open => s,
    }
}

/// Adds the security sections for the given credentials to the settings.
/// WEP and WPA passphrases must have an accepted length; the settings stay unchanged otherwise.
pub fn prepare_wifi_security_settings(
    credentials: &AccessPointCredentials,
    settings: &mut SettingsMap,
) -> (r: Result<(), CaptivePortalError>)
    ensures
        r is Ok <==> credentials_ok(*credentials),
        r is Ok ==> final(settings)@ == with_security(old(settings)@, *credentials),
        r is Err ==> final(settings)@ == old(settings)@,
        r is Err ==> (r matches Err(CaptivePortalError::InvalidSharedKey(m))
            && m@ == credentials_problem(*credentials)),
{
    match credentials {
        AccessPointCredentials::Wep { passphrase } => {
            match verify_password(passphrase.as_str()) {
                Err(e) => return Err(e),
                Ok(()) => {},
            }
            let mut security_settings = VariantMap::new();
            add_val(&mut security_settings, "wep-key-type", SettingValue::Byte(NM_WEP_KEY_TYPE_PASSPHRASE));
            add_string(&mut security_settings, "wep-key0", passphrase.clone());
            settings.insert(owned("802-11-wireless-security"), security_settings);
        },
        AccessPointCredentials::Wpa { passphrase } => {
            match verify_password(passphrase.as_str()) {
                Err(e) => return Err(e),
                Ok(()) => {},
            }
            let mut security_settings = VariantMap::new();
            add_str(&mut security_settings, "key-mgmt", "wpa-psk");
            add_string(&mut security_settings, "psk", passphrase.clone());
            settings.insert(owned("802-11-wireless-security"), security_settings);
        },
        AccessPointCredentials::Enterprise { identity, passphrase } => {
            let mut security_settings = VariantMap::new();
            add_str(&mut security_settings, "key-mgmt", "wpa-eap");

            let mut eap = VariantMap::new();
            let mut methods: Vec<String> = Vec::new();
            methods.push(owned("peap"));
            proof {
                assert(methods@.map_values(|s: String| s@) =~= seq!["peap"@]);
            }
            add_val(&mut eap, "eap", SettingValue::StrList(methods));
            add_str(&mut eap, "identity", identity.as_str());
            add_str(&mut eap, "password", passphrase.as_str());
            add_str(&mut eap, "phase2-auth", "mschapv2");

            settings.insert(owned("802-11-wireless-security"), security_settings);
            settings.insert(owned("802-1x"), eap);
        },
        AccessPointCredentials::Open => {},
    }
    Ok(())
}

/// The sections of a wifi connection before its security sections are added.
pub open spec fn ap_base_settings(
    ssid: Seq<char>,
    old_connection: Option<(Seq<char>, Seq<char>)>,
) -> Map<Seq<char>, Map<Seq<char>, ValueView>> {
    let connection = Map::empty().insert("autoconnect"@, ValueView::Bool(true));
    Map::empty().insert(
        "802-11-wireless"@,
        section1("ssid"@, ValueView::Bytes(encode_utf8(ssid))),
    ).insert(
        "connection"@,
        match old_connection {
            Some((id, uuid)) => connection.insert("id"@, ValueView::Str(id)).insert(
                "uuid"@,
                ValueView::Str(uuid),
            ),
            None => connection,
        },
    )
}

/// A client connection's settings, written for any SSID, earlier connection (id and
/// uuid) and credentials, have their "connection" section say `autoconnect = true`: the
/// network the user chose is brought up again automatically after a reboot or a loss.
pub proof fn lemma_client_connection_autoconnects(
    ssid: Seq<char>,
    old_connection: Option<(Seq<char>, Seq<char>)>,
    credentials: AccessPointCredentials,
)
    ensures
        with_security(ap_base_settings(ssid, old_connection), credentials).contains_key("connection"@),
        with_security(ap_base_settings(ssid, old_connection), credentials)["connection"@].contains_key(
            "autoconnect"@,
        ),
        with_security(ap_base_settings(ssid, old_connection), credentials)["connection"@]["autoconnect"@]
            == ValueView::Bool(true),
        // The connection is for the chosen SSID, keeps an earlier connection's id and uuid,
        // and is secured by the chosen key.
        with_security(ap_base_settings(ssid, old_connection), credentials)["802-11-wireless"@]["ssid"@]
            == ValueView::Bytes(encode_utf8(ssid)),
        old_connection matches Some((id, uuid)) ==> with_security(ap_base_settings(ssid, old_connection), credentials)[
            "connection"@]["id"@] == ValueView::Str(id) && with_security(
            ap_base_settings(ssid, old_connection),
            credentials,
        )["connection"@]["uuid"@] == ValueView::Str(uuid),
        credentials matches AccessPointCredentials::Wpa { passphrase } ==> with_security(
            ap_base_settings(ssid, old_connection),
            credentials,
        )["802-11-wireless-security"@]["key-mgmt"@] == ValueView::Str("wpa-psk"@) && with_security(
            ap_base_settings(ssid, old_connection),
            credentials,
        )["802-11-wireless-security"@]["psk"@] == ValueView::Str(passphrase@),
        credentials is Open ==> !with_security(ap_base_settings(ssid, old_connection), credentials).contains_key(
            "802-11-wireless-security"@,
        ),
{
    reveal_strlit("802-11-wireless");
    reveal_strlit("ssid");
    reveal_strlit("key-mgmt");
    reveal_strlit("psk");
    assert("802-11-wireless"@.len() == 15 && "ssid"@.len() == 4 && "key-mgmt"@.len() == 8 && "psk"@.len() == 3);
    reveal_strlit("connection");
    reveal_strlit("802-11-wireless-security");
    reveal_strlit("802-1x");
    reveal_strlit("autoconnect");
    reveal_strlit("id");
    reveal_strlit("uuid");
    assert("connection"@.len() == 10 && "802-11-wireless-security"@.len() == 24 && "802-1x"@.len() == 6);
    assert("autoconnect"@.len() == 11 && "id"@.len() == 2 && "uuid"@.len() == 4);
}

/// The id and uuid of an optional earlier connection.
pub open spec fn id_and_uuid(old_connection: Option<WiFiConnectionSettings>) -> Option<(Seq<char>, Seq<char>)> {
    match old_connection {
        Some(c) => Some((c.id@, c.uuid@)),
        None => None,
    }
}

/// The settings of a wifi client connection to `ssid` with the given credentials.
/// If an earlier connection is given, its id and uuid are kept, so that it is updated.
pub fn make_arguments_for_ap(
    ssid: &SSID,
    credentials: AccessPointCredentials,
    old_connection: Option<WiFiConnectionSettings>,
) -> (r: Result<SettingsMap, CaptivePortalError>)
    ensures
        r is Ok <==> credentials_ok(credentials),
        r matches Ok(s) ==> s@ == with_security(ap_base_settings(ssid@, id_and_uuid(old_connection)), credentials),
        r is Err ==> (r matches Err(CaptivePortalError::InvalidSharedKey(m))
            && m@ == credentials_problem(credentials)),
        // The network the user chose is brought up again automatically.
        r matches Ok(s) ==> s@.contains_key("connection"@) && s@["connection"@].contains_key("autoconnect"@)
            && s@["connection"@]["autoconnect"@] == ValueView::Bool(true),
{
    proof {
        lemma_client_connection_autoconnects(ssid@, id_and_uuid(old_connection), credentials);
    }
    let ghost old_ids = id_and_uuid(old_connection);
    let mut settings = SettingsMap::new();

    let mut wireless = VariantMap::new();
    add_val(&mut wireless, "ssid", SettingValue::Bytes(str_bytes(ssid.as_str())));
    settings.insert(owned("802-11-wireless"), wireless);

    let mut connection = VariantMap::new();
    add_val(&mut connection, "autoconnect", SettingValue::Bool(true));
    match old_connection {
        Some(old_connection) => {
            add_val(&mut connection, "id", SettingValue::Str(old_connection.id));
            add_val(&mut connection, "uuid", SettingValue::Str(old_connection.uuid));
        },
        None => {},
    }
    settings.insert(owned("connection"), connection);
    assert(settings@ =~= ap_base_settings(ssid@, old_ids));

    match prepare_wifi_security_settings(&credentials, &mut settings) {
        Ok(()) => Ok(settings),
        Err(e) => Err(e),
    }
}

/// The connection options for a new client connection: it should be temporary
/// only, until explicitly saved.
pub fn make_options_for_ap() -> (r: VariantMap)
    ensures
        r@ == section1("persist"@, ValueView::Str("volatile"@)),
{
    let mut options = VariantMap::new();
    add_str(&mut options, "persist", "volatile");
    options
}

/// The settings of a hotspot connection.
pub open spec fn sta_settings(
    ssid: Seq<char>,
    password: Option<Seq<char>>,
    address: Option<Ipv4Address>,
    interface: Seq<char>,
    uuid: Seq<char>,
) -> Map<Seq<char>, Map<Seq<char>, ValueView>> {
    let wireless = Map::empty().insert("ssid"@, ValueView::Bytes(encode_utf8(ssid))).insert(
        "band"@,
        ValueView::Str("bg"@),
    ).insert("hidden"@, ValueView::Bool(false)).insert("mode"@, ValueView::Str("ap"@));
    let with_security = match password {
        Some(p) => Map::empty().insert(
            "802-11-wireless-security"@,
            Map::empty().insert("key-mgmt"@, ValueView::Str("wpa-psk"@)).insert(
                "psk"@,
                ValueView::Str(p),
            ),
        ).insert(
            "802-11-wireless"@,
            wireless.insert("security"@, ValueView::Str("802-11-wireless-security"@)),
        ),
        None => Map::empty().insert("802-11-wireless"@, wireless),
    };
    let connection = Map::empty().insert("id"@, ValueView::Str("Hotspot"@)).insert(
        "interface-name"@,
        ValueView::Str(interface),
    ).insert("uuid"@, ValueView::Str(uuid)).insert(
        "type"@,
        ValueView::Str("802-11-wireless"@),
    ).insert("autoconnect"@, ValueView::Bool(false));
    let ipv4 = match address {
        Some(a) => Map::empty().insert("method"@, ValueView::Str("manual"@)).insert(
            "address-data"@,
            ValueView::Addresses(seq![(ipv4_text(a), 24u32)]),
        ),
        None => Map::empty().insert("method"@, ValueView::Str("shared"@)),
    };
    with_security.insert("connection"@, connection).insert("ipv4"@, ipv4)
}

/// A hotspot's settings, written for any SSID, password, address, interface and uuid,
/// make an access point ("mode" "ap") that broadcasts its SSID ("hidden" false), so that
/// users see the portal network in their wifi list, and that is not brought up by
/// itself ("autoconnect" false).
pub proof fn lemma_hotspot_is_broadcast(
    ssid: Seq<char>,
    password: Option<Seq<char>>,
    address: Option<Ipv4Address>,
    interface: Seq<char>,
    uuid: Seq<char>,
)
    ensures
        sta_settings(ssid, password, address, interface, uuid).contains_key("802-11-wireless"@),
        sta_settings(ssid, password, address, interface, uuid)["802-11-wireless"@].contains_key("hidden"@),
        sta_settings(ssid, password, address, interface, uuid)["802-11-wireless"@]["hidden"@] == ValueView::Bool(
            false,
        ),
        sta_settings(ssid, password, address, interface, uuid)["802-11-wireless"@]["mode"@] == ValueView::Str(
            "ap"@,
        ),
        sta_settings(ssid, password, address, interface, uuid).contains_key("connection"@),
        sta_settings(ssid, password, address, interface, uuid)["connection"@]["autoconnect"@] == ValueView::Bool(
            false,
        ),
        sta_settings(ssid, password, address, interface, uuid)["802-11-wireless"@]["band"@] == ValueView::Str(
            "bg"@,
        ),
        sta_settings(ssid, password, address, interface, uuid)["802-11-wireless"@]["ssid"@] == ValueView::Bytes(
            encode_utf8(ssid),
        ),
        // With a password the hotspot is WPA protected by exactly that key; without one it is open.
        match password {
            Some(p) => sta_settings(ssid, password, address, interface, uuid).contains_key("802-11-wireless-security"@)
                && sta_settings(ssid, password, address, interface, uuid)["802-11-wireless-security"@]["key-mgmt"@]
                == ValueView::Str("wpa-psk"@)
                && sta_settings(ssid, password, address, interface, uuid)["802-11-wireless-security"@]["psk"@]
                == ValueView::Str(p),
            None => !sta_settings(ssid, password, address, interface, uuid).contains_key(
                "802-11-wireless-security"@,
            ),
        },
        // With an address the hotspot uses it (a /24 network); otherwise it shares a network.
        sta_settings(ssid, password, address, interface, uuid).contains_key("ipv4"@),
        match address {
            Some(a) => sta_settings(ssid, password, address, interface, uuid)["ipv4"@]["method"@] == ValueView::Str(
                "manual"@,
            ) && sta_settings(ssid, password, address, interface, uuid)["ipv4"@]["address-data"@]
                == ValueView::Addresses(seq![(ipv4_text(a), 24u32)]),
            None => sta_settings(ssid, password, address, interface, uuid)["ipv4"@]["method"@] == ValueView::Str(
                "shared"@,
            ),
        },
{
    reveal_strlit("ssid");
    reveal_strlit("band");
    reveal_strlit("key-mgmt");
    reveal_strlit("psk");
    reveal_strlit("method");
    reveal_strlit("address-data");
    reveal_strlit("mode");
    assert("mode"@.len() == 4);
    assert("ssid"@.len() == 4 && "band"@.len() == 4 && "key-mgmt"@.len() == 8 && "psk"@.len() == 3);
    assert("method"@.len() == 6 && "address-data"@.len() == 12);
    assert("ssid"@ != "band"@) by {
        assert("ssid"@[0] != "band"@[0]);
    }
    assert("ssid"@ != "mode"@) by {
        assert("ssid"@[0] != "mode"@[0]);
    }
    assert("band"@ != "mode"@) by {
        assert("band"@[0] != "mode"@[0]);
    }
    reveal_strlit("802-11-wireless");
    reveal_strlit("802-11-wireless-security");
    reveal_strlit("connection");
    reveal_strlit("ipv4");
    reveal_strlit("hidden");
    reveal_strlit("mode");
    reveal_strlit("security");
    assert("802-11-wireless"@.len() == 15 && "802-11-wireless-security"@.len() == 24 && "connection"@.len() == 10);
    assert("ipv4"@.len() == 4 && "hidden"@.len() == 6 && "mode"@.len() == 4 && "security"@.len() == 8);
    assert("ipv4"@ != "connection"@);
}

/// The view of an optional string.
pub open spec fn opt_view(s: Option<String>) -> Option<Seq<char>> {
    match s {
        Some(s) => Some(s@),
        None => None,
    }
}

/// The settings of a hotspot ("Hotspot") on the given interface. With a password the
/// hotspot is WPA protected; the password must have an accepted length. With an address
/// the hotspot uses that address, otherwise the network manager shares a network.
pub fn make_arguments_for_sta(
    ssid: SSID,
    password: Option<String>,
    address: Option<Ipv4Address>,
    interface: &str,
    uuid: &str,
) -> (r: Result<SettingsMap, CaptivePortalError>)
    ensures
        match password {
            Some(p) => (r is Ok <==> password_ok(p@)) && (r is Err ==> (r matches Err(
                CaptivePortalError::InvalidSharedKey(m),
            ) && m@ == password_problem(p@))),
            None => r is Ok,
        },
        r matches Ok(s) ==> s@ == sta_settings(ssid@, opt_view(password), address, interface@, uuid@),
        // The hotspot broadcasts its SSID, as an access point, and is never brought up by itself.
        r matches Ok(s) ==> s@.contains_key("802-11-wireless"@) && s@["802-11-wireless"@].contains_key("hidden"@)
            && s@["802-11-wireless"@]["hidden"@] == ValueView::Bool(false)
            && s@["802-11-wireless"@]["mode"@] == ValueView::Str("ap"@) && s@.contains_key("connection"@)
            && s@["connection"@]["autoconnect"@] == ValueView::Bool(false),
{
    proof {
        lemma_hotspot_is_broadcast(ssid@, opt_view(password), address, interface@, uuid@);
    }
    let ghost pw = opt_view(password);
    let mut settings = SettingsMap::new();

    let mut wireless = VariantMap::new();
    add_val(&mut wireless, "ssid", SettingValue::Bytes(str_bytes(ssid.as_str())));
    add_str(&mut wireless, "band", "bg");
    add_val(&mut wireless, "hidden", SettingValue::Bool(false));
    add_str(&mut wireless, "mode", "ap");
    match password {
        Some(password) => {
            match verify_password(password.as_str()) {
                Err(e) => return Err(e),
                Ok(()) => {},
            }
            add_str(&mut wireless, "security", "802-11-wireless-security");

            let mut security = VariantMap::new();
            add_str(&mut security, "key-mgmt", "wpa-psk");
            add_string(&mut security, "psk", password);
            settings.insert(owned("802-11-wireless-security"), security);
        },
        None => {},
    }
    settings.insert(owned("802-11-wireless"), wireless);

    let mut connection = VariantMap::new();
    add_str(&mut connection, "id", "Hotspot");
    add_str(&mut connection, "interface-name", interface);
    add_str(&mut connection, "uuid", uuid);
    add_str(&mut connection, "type", "802-11-wireless");
    add_val(&mut connection, "autoconnect", SettingValue::Bool(false));
    settings.insert(owned("connection"), connection);

    let mut ipv4 = VariantMap::new();
    match address {
        Some(address) => {
            add_str(&mut ipv4, "method", "manual");
            let mut addresses: Vec<AddressEntry> = Vec::new();
            addresses.push(AddressEntry { address: address.to_text(), prefix: 24 });
            proof {
                assert(addresses@.map_values(|a: AddressEntry| (a.address@, a.prefix)) =~= seq![(ipv4_text(address), 24u32)]);
            }
            add_val(&mut ipv4, "address-data", SettingValue::Addresses(addresses));
        },
        None => {
            add_str(&mut ipv4, "method", "shared");
        },
    }
    settings.insert(owned("ipv4"), ipv4);
    assert(settings@ =~= sta_settings(ssid@, pw, address, interface@, uuid@));
    Ok(settings)
}

/// The string stored for `key`, or the empty string if there is none.
pub open spec fn extract_spec(key: Seq<char>, map: Map<Seq<char>, ValueView>) -> Seq<char> {
    if map.contains_key(key) {
        match map[key] {
            ValueView::Str(s) => s,
            _ => Seq::empty(),
        }
    } else {
        Seq::empty()
    }
}

/// The byte array stored for `key`: a byte array as it is, a number array with each
/// number truncated to a byte, and the empty array for anything else.
pub open spec fn extract_bytes_spec(key: Seq<char>, map: Map<Seq<char>, ValueView>) -> Seq<u8> {
    if map.contains_key(key) {
        match map[key] {
            ValueView::Bytes(b) => b,
            ValueView::UIntList(l) => l.map_values(|v: u32| v as u8),
            _ => Seq::empty(),
        }
    } else {
        Seq::empty()
    }
}

/// The string array stored for `key`, or the empty array for anything else.
pub open spec fn extract_vector_spec(key: Seq<char>, map: Map<Seq<char>, ValueView>) -> Seq<Seq<char>> {
    if map.contains_key(key) {
        match map[key] {
            ValueView::StrList(l) => l,
            _ => Seq::empty(),
        }
    } else {
        Seq::empty()
    }
}

/// The string stored for `key`, or the empty string if there is none.
pub fn extract(key: &str, map: &VariantMap) -> (r: String)
    ensures
        r@ == extract_spec(key@, map@),
{
    match map.get(key) {
        Some(SettingValue::Str(s)) => s.clone(),
        _ => String::new(),
    }
}

/// The bytes stored for `key` (see [`extract_bytes_spec`]).
pub fn extract_bytes(key: &str, map: &VariantMap) -> (r: Vec<u8>)
    ensures
        r@ == extract_bytes_spec(key@, map@),
{
    match map.get(key) {
        Some(SettingValue::Bytes(b)) => b.clone(),
        Some(SettingValue::UIntList(l)) => {
            let mut out: Vec<u8> = Vec::new();
            let mut i: usize = 0;
            while i < l.len()
                invariant
                    i <= l@.len(),
                    out@ =~= l@.take(i as int).map_values(|v: u32| v as u8),
                decreases l@.len() - i,
            {
                out.push(l[i] as u8);
                i = i + 1;
                assert(out@ =~= l@.take(i as int).map_values(|v: u32| v as u8));
            }
            assert(l@.take(l@.len() as int) =~= l@);
            out
        },
        _ => Vec::new(),
    }
}

/// A copy of a list of strings.
pub fn clone_strings(l: &Vec<String>) -> (r: Vec<String>)
    ensures
        r@.map_values(|s: String| s@) == l@.map_values(|s: String| s@),
{
    let mut out: Vec<String> = Vec::new();
    let mut i: usize = 0;
    while i < l.len()
        invariant
            i <= l@.len(),
            out@.len() == i,
            forall|j: int| 0 <= j < i ==> #[trigger] out@[j]@ == l@[j]@,
        decreases l@.len() - i,
    {
        out.push(l[i].clone());
        i = i + 1;
    }
    assert(out@.map_values(|s: String| s@) =~= l@.map_values(|s: String| s@));
    out
}

/// The strings stored for `key`, or none if there is no string array.
pub fn extract_vector(key: &str, map: &VariantMap) -> (r: Vec<String>)
    ensures
        r@.map_values(|s: String| s@) == extract_vector_spec(key@, map@),
{
    match map.get(key) {
        Some(SettingValue::StrList(l)) => clone_strings(l),
        _ => {
            let r: Vec<String> = Vec::new();
            assert(r@.map_values(|s: String| s@) =~= Seq::<Seq<char>>::empty());
            r
        },
    }
}

/// The mode named in a wifi section; unknown modes are taken as infrastructure.
pub open spec fn mode_of(m: Seq<char>) -> WifiConnectionMode {
    if m == "ap"@ {
        WifiConnectionMode::AP
    } else if m == "adhoc"@ {
        WifiConnectionMode::AdHoc
    } else {
        WifiConnectionMode::Infrastructure
    }
}

/// True iff the settings have the sections of a wifi connection.
pub open spec fn is_wifi_settings(d: Map<Seq<char>, Map<Seq<char>, ValueView>>) -> bool {
    d.contains_key("802-11-wireless"@) && d.contains_key("connection"@)
}

/// The SSID bytes of wifi connection settings.
pub open spec fn ssid_bytes(d: Map<Seq<char>, Map<Seq<char>, ValueView>>) -> Seq<u8> {
    extract_bytes_spec("ssid"@, d["802-11-wireless"@])
}

/// True iff `s` holds what the wifi connection settings `d` say.
pub open spec fn decoded_from(d: Map<Seq<char>, Map<Seq<char>, ValueView>>, s: WiFiConnectionSettings) -> bool {
    let w = d["802-11-wireless"@];
    let c = d["connection"@];
    &&& s.id@ == extract_spec("id"@, c)
    &&& s.uuid@ == extract_spec("uuid"@, c)
    &&& s.ssid@ == decode_utf8(ssid_bytes(d))
    &&& s.mode == mode_of(extract_spec("mode"@, w))
    &&& s.seen_bssids@.map_values(|x: String| x@) == extract_vector_spec("seen-bssids"@, w)
}

/// Whether the settings of `connection_path` are to be read from the connection that
/// it activates: a caller may hand an active connection in place of a stored one, which
/// its path shows ("ActiveConnection" in it).
pub fn names_active_connection(connection_path: &str) -> (r: bool)
    ensures
        r == spec_contains(connection_path@, "ActiveConnection"@),
{
    str_contains(connection_path, "ActiveConnection")
}

/// Reads the wifi parts of a connection's settings. Returns `None` if the settings
/// are not those of a wifi connection (no "802-11-wireless" or no "connection" section).
/// The SSID must be UTF-8.
pub fn get_connection_settings(dict: &SettingsMap) -> (r: Result<Option<WiFiConnectionSettings>, CaptivePortalError>)
    ensures
        !(dict@.contains_key("802-11-wireless"@) && dict@.contains_key("connection"@)) ==> r matches Ok(None),
        is_wifi_settings(dict@) && !valid_utf8(ssid_bytes(dict@)) ==> r matches Err(CaptivePortalError::Utf8),
        is_wifi_settings(dict@) && valid_utf8(ssid_bytes(dict@)) ==> (r matches Ok(Some(s)) && decoded_from(dict@, s)),
{
    let wireless_settings = match dict.get("802-11-wireless") {
        Some(v) => v,
        None => return Ok(None),
    };
    let connection_settings = match dict.get("connection") {
        Some(v) => v,
        None => return Ok(None),
    };

    let mode_text = extract("mode", wireless_settings);
    let mode = if str_eq(mode_text.as_str(), "ap") {
        WifiConnectionMode::AP
    } else if str_eq(mode_text.as_str(), "adhoc") {
        WifiConnectionMode::AdHoc
    } else {
        WifiConnectionMode::Infrastructure
    };

    let d = extract_bytes("ssid", wireless_settings);
    let ssid = match string_from_utf8(d) {
        Some(s) => s,
        None => return Err(CaptivePortalError::Utf8),
    };

    Ok(Some(WiFiConnectionSettings {
        id: extract("id", connection_settings),
        uuid: extract("uuid", connection_settings),
        ssid,
        mode,
        seen_bssids: extract_vector("seen-bssids", wireless_settings),
    }))
}

/// The settings a connection attempt writes read back as what was written: they are
/// those of a wifi connection, and reading them gives the new SSID, the id and uuid of
/// the connection they update (none for a new one), infrastructure mode and no access
/// points seen yet, whatever the credentials.
pub proof fn lemma_client_settings_read_back(
    ssid: Seq<char>,
    credentials: AccessPointCredentials,
    old_connection: Option<WiFiConnectionSettings>,
    s: WiFiConnectionSettings,
)
    requires
        decoded_from(with_security(ap_base_settings(ssid, id_and_uuid(old_connection)), credentials), s),
    ensures
        is_wifi_settings(with_security(ap_base_settings(ssid, id_and_uuid(old_connection)), credentials)),
        valid_utf8(ssid_bytes(with_security(ap_base_settings(ssid, id_and_uuid(old_connection)), credentials))),
        s.ssid@ == ssid,
        s.mode == WifiConnectionMode::Infrastructure,
        s.seen_bssids@.len() == 0,
        match old_connection {
            Some(o) => s.id@ == o.id@ && s.uuid@ == o.uuid@,
            None => s.id@.len() == 0 && s.uuid@.len() == 0,
        },
{
    reveal_strlit("802-11-wireless");
    reveal_strlit("802-11-wireless-security");
    reveal_strlit("802-1x");
    reveal_strlit("connection");
    reveal_strlit("ssid");
    reveal_strlit("mode");
    reveal_strlit("id");
    reveal_strlit("uuid");
    reveal_strlit("autoconnect");
    reveal_strlit("seen-bssids");
    reveal_strlit("ap");
    reveal_strlit("adhoc");
    assert("ap"@.len() == 2 && "adhoc"@.len() == 5);
    assert("802-11-wireless"@.len() == 15 && "802-11-wireless-security"@.len() == 24 && "802-1x"@.len() == 6);
    assert("connection"@.len() == 10 && "ssid"@.len() == 4 && "mode"@.len() == 4 && "id"@.len() == 2);
    assert("uuid"@.len() == 4 && "autoconnect"@.len() == 11 && "seen-bssids"@.len() == 11);
    assert("ssid"@ != "mode"@) by {
        assert("ssid"@[0] != "mode"@[0]);
    }
    assert("autoconnect"@ != "seen-bssids"@) by {
        assert("autoconnect"@[0] != "seen-bssids"@[0]);
    }
    let d = with_security(ap_base_settings(ssid, id_and_uuid(old_connection)), credentials);
    assert(d["802-11-wireless"@] == section1("ssid"@, ValueView::Bytes(encode_utf8(ssid))));
    vstd::utf8::encode_utf8_valid_utf8(ssid);
    vstd::utf8::encode_utf8_decode_utf8(ssid);
    assert(s.seen_bssids@.map_values(|x: String| x@).len() == 0);
}

/// A hotspot's settings read back as an access point connection named "Hotspot" with
/// the given uuid and SSID, whatever its password and address.
pub proof fn lemma_hotspot_settings_read_back(
    ssid: Seq<char>,
    password: Option<Seq<char>>,
    address: Option<Ipv4Address>,
    interface: Seq<char>,
    uuid: Seq<char>,
    s: WiFiConnectionSettings,
)
    requires
        decoded_from(sta_settings(ssid, password, address, interface, uuid), s),
    ensures
        is_wifi_settings(sta_settings(ssid, password, address, interface, uuid)),
        valid_utf8(ssid_bytes(sta_settings(ssid, password, address, interface, uuid))),
        s.ssid@ == ssid,
        s.mode == WifiConnectionMode::AP,
        s.id@ == "Hotspot"@,
        s.uuid@ == uuid,
{
    reveal_strlit("802-11-wireless");
    reveal_strlit("802-11-wireless-security");
    reveal_strlit("connection");
    reveal_strlit("ipv4");
    reveal_strlit("ssid");
    reveal_strlit("band");
    reveal_strlit("hidden");
    reveal_strlit("mode");
    reveal_strlit("security");
    reveal_strlit("id");
    reveal_strlit("uuid");
    reveal_strlit("interface-name");
    reveal_strlit("type");
    reveal_strlit("autoconnect");
    reveal_strlit("ap");
    assert("802-11-wireless"@.len() == 15 && "802-11-wireless-security"@.len() == 24 && "connection"@.len() == 10);
    assert("ipv4"@.len() == 4 && "ssid"@.len() == 4 && "band"@.len() == 4 && "hidden"@.len() == 6);
    assert("mode"@.len() == 4 && "security"@.len() == 8 && "id"@.len() == 2 && "uuid"@.len() == 4);
    assert("interface-name"@.len() == 14 && "type"@.len() == 4 && "autoconnect"@.len() == 11);
    assert("ipv4"@ != "connection"@);
    assert("ssid"@ != "band"@) by {
        assert("ssid"@[0] != "band"@[0]);
    }
    assert("ssid"@ != "mode"@) by {
        assert("ssid"@[0] != "mode"@[0]);
    }
    assert("band"@ != "mode"@) by {
        assert("band"@[0] != "mode"@[0]);
    }
    assert("id"@ != "uuid"@);
    assert("uuid"@ != "type"@) by {
        assert("uuid"@[0] != "type"@[0]);
    }
    vstd::utf8::encode_utf8_valid_utf8(ssid);
    vstd::utf8::encode_utf8_decode_utf8(ssid);
}

} // verus!
