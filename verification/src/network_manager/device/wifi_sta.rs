//! Creating a hotspot on a wifi device.

use vstd::prelude::*;
use vstd::utf8::{decode_utf8, valid_utf8};
use crate::network_manager::connection::ascii_password_ok;
use crate::network_manager::utils::ascii_password_problem;
use crate::network_manager::connection::ssid::Ssid;
use crate::network_manager::dbus::{
    calls, is_path_arg, path_arg, root_arg, usable_path, CallArg, MethodCall, NM_SERVICE_INTERFACE, NM_SERVICE_PATH,
};
use crate::network_manager::errors::NetworkManagerError;
use crate::network_manager::nm::NetworkManager;
use crate::network_manager::utils::{add_str, add_string, add_val, verify_ascii_password};
use crate::settings::{AddressEntry, SettingValue, SettingsMap, ValueView, VariantMap};
use crate::text::{ipv4_text, owned, Ipv4Address};

verus! {

/// The "802-11-wireless" section of a hotspot.
pub open spec fn hotspot_wireless(ssid: Seq<u8>, secured: bool) -> Map<Seq<char>, ValueView> {
    let base = Map::empty().insert("ssid"@, ValueView::Bytes(ssid)).insert("band"@, ValueView::Str("bg"@)).insert(
        "hidden"@,
        ValueView::Bool(false),
    ).insert("mode"@, ValueView::Str("ap"@));
    if secured {
        base.insert("security"@, ValueView::Str("802-11-wireless-security"@))
    } else {
        base
    }
}

/// The "connection" section of a hotspot: it is named by its SSID where that is UTF-8 text.
pub open spec fn hotspot_connection(ssid: Seq<u8>, interface: Seq<char>) -> Map<Seq<char>, ValueView> {
    let base = Map::empty().insert("autoconnect"@, ValueView::Bool(false));
    let named = if valid_utf8(ssid) {
        base.insert("id"@, ValueView::Str(decode_utf8(ssid)))
    } else {
        base
    };
    named.insert("interface-name"@, ValueView::Str(interface)).insert("type"@, ValueView::Str("802-11-wireless"@))
}

/// The "ipv4" section of a hotspot: a manual address with a 24 bit prefix, or a shared
/// connection.
pub open spec fn hotspot_ipv4(address: Option<Ipv4Address>) -> Map<Seq<char>, ValueView> {
    match address {
        Some(a) => Map::empty().insert("method"@, ValueView::Str("manual"@)).insert(
            "address-data"@,
            ValueView::Addresses(seq![(ipv4_text(a), 24u32)]),
        ),
        None => Map::empty().insert("method"@, ValueView::Str("shared"@)),
    }
}

/// The settings of a hotspot.
pub open spec fn hotspot_settings(
    ssid: Seq<u8>,
    interface: Seq<char>,
    password: Option<Seq<char>>,
    address: Option<Ipv4Address>,
) -> Map<Seq<char>, Map<Seq<char>, ValueView>> {
    let base = match password {
        Some(p) => Map::empty().insert(
            "802-11-wireless-security"@,
            Map::empty().insert("key-mgmt"@, ValueView::Str("wpa-psk"@)).insert("psk"@, ValueView::Str(p)),
        ),
        None => Map::empty(),
    };
    base.insert("802-11-wireless"@, hotspot_wireless(ssid, password is Some)).insert(
        "connection"@,
        hotspot_connection(ssid, interface),
    ).insert("ipv4"@, hotspot_ipv4(address))
}

/// The text of an optional string.
pub open spec fn text_view(s: Option<String>) -> Option<Seq<char>> {
    match s {
        Some(t) => Some(t@),
        None => None,
    }
}

/// True iff `c` adds and activates a connection with `settings` on the device at
/// `device` for the specific object at `object`.
pub open spec fn is_add_and_activate_call(
    c: MethodCall,
    settings: Map<Seq<char>, Map<Seq<char>, ValueView>>,
    device: Seq<char>,
    object: Seq<char>,
) -> bool {
    &&& calls(c, NM_SERVICE_PATH@, NM_SERVICE_INTERFACE, "AddAndActivateConnection"@, 3)
    &&& c.args@[0] matches CallArg::Settings(s) && s@ == settings
    &&& is_path_arg(c.args@[1], device)
    &&& is_path_arg(c.args@[2], object)
}

/// The call that creates and activates a hotspot with the SSID on the device at
/// `device_path` (whose interface is `interface`): an access point on the "bg" band,
/// secured with WPA and the password if one is given, at the address if one is given
/// (shared otherwise). A password that is not ASCII or not 8 to 32 characters long is
/// an error, as is an invalid device path.
pub fn create_hotspot(
    dbus_manager: &NetworkManager,
    device_path: &str,
    interface: &str,
    ssid: Ssid,
    password: Option<String>,
    address: Option<Ipv4Address>,
) -> (r: Result<MethodCall, NetworkManagerError>)
    ensures
        match password {
            Some(p) => !ascii_password_ok(p@) ==> (r matches Err(NetworkManagerError::PreSharedKey(m))
                && m@ == ascii_password_problem(p@)),
            None => true,
        },
        (match password {
            Some(p) => ascii_password_ok(p@),
            None => true,
        }) ==> if usable_path(device_path@) {
            (r matches Ok(c) && is_add_and_activate_call(
                c,
                hotspot_settings(ssid@, interface@, text_view(password), address),
                device_path@,
                "/"@,
            ))
        } else {
            r matches Err(NetworkManagerError::Generic(m)) && m@ == "Invalid object path"@
        },
{
    let ssid_user_string = ssid.to_string();

    let mut wireless = VariantMap::new();
    add_val(&mut wireless, "ssid", SettingValue::Bytes(ssid.into_vec()));
    add_str(&mut wireless, "band", "bg");
    add_val(&mut wireless, "hidden", SettingValue::Bool(false));
    add_str(&mut wireless, "mode", "ap");

    let mut connection = VariantMap::new();
    add_val(&mut connection, "autoconnect", SettingValue::Bool(false));
    match ssid_user_string {
        Some(ssid_str) => add_string(&mut connection, "id", ssid_str),
        None => {},
    }
    add_str(&mut connection, "interface-name", interface);
    add_str(&mut connection, "type", "802-11-wireless");

    let mut ipv4 = VariantMap::new();
    match address {
        Some(address) => {
            add_str(&mut ipv4, "method", "manual");
            let mut addresses: Vec<AddressEntry> = Vec::new();
            addresses.push(AddressEntry { address: address.to_text(), prefix: 24 });
            proof {
                assert(addresses@.map_values(|e: AddressEntry| (e.address@, e.prefix)) =~= seq![
                    (ipv4_text(address), 24u32),
                ]);
            }
            add_val(&mut ipv4, "address-data", SettingValue::Addresses(addresses));
        },
        None => {
            add_str(&mut ipv4, "method", "shared");
        },
    }

    let mut settings = SettingsMap::new();
    let ghost secured = password is Some;
    match password {
        Some(password) => {
            add_str(&mut wireless, "security", "802-11-wireless-security");
            let key = match verify_ascii_password(password) {
                Ok(k) => k,
                Err(e) => return Err(e),
            };
            let mut security = VariantMap::new();
            add_str(&mut security, "key-mgmt", "wpa-psk");
            add_string(&mut security, "psk", key);
            settings.insert(owned("802-11-wireless-security"), security);
        },
        None => {},
    }
    settings.insert(owned("802-11-wireless"), wireless);
    settings.insert(owned("connection"), connection);
    settings.insert(owned("ipv4"), ipv4);

    let device = match path_arg(device_path) {
        Ok(a) => a,
        Err(e) => return Err(e),
    };
    let ghost settings_view = settings@;
    let mut args: Vec<CallArg> = Vec::new();
    args.push(CallArg::Settings(settings));
    args.push(device);
    args.push(root_arg());
    let call = MethodCall {
        object: owned(NM_SERVICE_PATH),
        interface: NM_SERVICE_INTERFACE,
        method: "AddAndActivateConnection",
        args,
    };
    proof {
        assert(settings_view =~= hotspot_settings(ssid@, interface@, text_view(password), address));
    }
    Ok(call)
}

} // verus!
