//! Object paths of the message bus, and the system service of the network manager.

use vstd::prelude::*;
use crate::network_manager::errors::NetworkManagerError;
use crate::settings::{SettingsMap, VariantMap};
use crate::text::owned;

pub mod service;

verus! {

/// The object of the network manager itself.
pub const NM_SERVICE_PATH: &'static str = "/org/freedesktop/NetworkManager";

/// The object holding the stored connections.
pub const NM_SETTINGS_PATH: &'static str = "/org/freedesktop/NetworkManager/Settings";

pub const NM_SERVICE_INTERFACE: &'static str = "org.freedesktop.NetworkManager";

pub const NM_SETTINGS_INTERFACE: &'static str = "org.freedesktop.NetworkManager.Settings";

pub const NM_CONNECTION_INTERFACE: &'static str = "org.freedesktop.NetworkManager.Settings.Connection";

pub const NM_ACTIVE_INTERFACE: &'static str = "org.freedesktop.NetworkManager.Connection.Active";

pub const NM_DEVICE_INTERFACE: &'static str = "org.freedesktop.NetworkManager.Device";

pub const NM_WIRELESS_INTERFACE: &'static str = "org.freedesktop.NetworkManager.Device.Wireless";

pub const NM_ACCESS_POINT_INTERFACE: &'static str = "org.freedesktop.NetworkManager.AccessPoint";

/// An argument of a method call.
#[derive(Debug, PartialEq)]
pub enum CallArg {
    /// An object path (checked to be valid).
    ObjectPath(String),
    /// A string.
    Text(String),
    /// A settings dictionary.
    Settings(SettingsMap),
    /// An options dictionary.
    Options(VariantMap),
}

/// A method call on an object of the network manager, to be sent by the caller.
#[derive(Debug, PartialEq)]
pub struct MethodCall {
    pub object: String,
    pub interface: &'static str,
    pub method: &'static str,
    pub args: Vec<CallArg>,
}

/// True iff `a` is the object path argument `p`.
pub open spec fn is_path_arg(a: CallArg, p: Seq<char>) -> bool {
    a matches CallArg::ObjectPath(q) && q@ == p
}

/// True iff `c` calls `method` of `interface` on `object`, with `n` arguments.
pub open spec fn calls(c: MethodCall, object: Seq<char>, interface: &'static str, method: Seq<char>, n: nat) -> bool {
    &&& c.object@ == object
    &&& c.interface == interface
    &&& c.method@ == method
    &&& c.args@.len() == n
}

/// A character allowed in an element of an object path.
pub open spec fn path_char(c: char) -> bool {
    ('A' <= c <= 'Z') || ('a' <= c <= 'z') || ('0' <= c <= '9') || c == '_'
}

/// True iff `s` is a valid object path of the message bus: "/" or a leading slash
/// followed by non-empty elements of ASCII letters, digits and underscores separated by
/// single slashes, without a trailing slash.
pub open spec fn valid_object_path(s: Seq<char>) -> bool {
    &&& s.len() >= 1
    &&& s[0] == '/'
    &&& (s.len() > 1 ==> s[s.len() - 1] != '/')
    &&& forall|i: int| 1 <= i < s.len() ==> (s[i] == '/' || path_char(#[trigger] s[i]))
    &&& forall|i: int| 0 <= i < s.len() - 1 ==> !(#[trigger] s[i] == '/' && s[i + 1] == '/')
}

/// Checks an object path. Calls `dbus::Path::new`, which validates the text with the
/// message bus library (`dbus_validate_path`) and accepts it exactly when it is a valid
/// object path. The library reads the text up to its first NUL character, so nothing
/// is stated for a text that contains one.
#[verifier::external_body]
fn check_object_path(s: &str) -> (r: bool)
    ensures
        !s@.contains('\0') ==> r == valid_object_path(s@),
{
    dbus::Path::new(s).is_ok()
}

/// True iff the text is an object path that can be handed to a method call.
pub open spec fn usable_path(p: Seq<char>) -> bool {
    valid_object_path(p) && !p.contains('\0')
}

/// The object path argument `p`; an invalid path is an error.
pub fn path_arg(p: &str) -> (r: Result<CallArg, NetworkManagerError>)
    ensures
        r is Ok <==> usable_path(p@),
        r matches Ok(a) ==> is_path_arg(a, p@),
        r is Err ==> (r matches Err(NetworkManagerError::Generic(m)) && m@ == "Invalid object path"@),
{
    match object_path(p) {
        Ok(s) => Ok(CallArg::ObjectPath(s)),
        Err(e) => Err(e),
    }
}

/// The root path argument "/".
pub fn root_arg() -> (r: CallArg)
    ensures
        is_path_arg(r, "/"@),
{
    CallArg::ObjectPath(owned("/"))
}

/// A call of `method` of `interface` on the object at `object`; an invalid object
/// path is an error.
pub fn method_call(object: &str, interface: &'static str, method: &'static str, args: Vec<CallArg>) -> (r: Result<
    MethodCall,
    NetworkManagerError,
>)
    ensures
        r is Ok <==> usable_path(object@),
        r matches Ok(c) ==> c.object@ == object@ && c.interface == interface && c.method == method && c.args == args,
        r is Err ==> (r matches Err(NetworkManagerError::Generic(m)) && m@ == "Invalid object path"@),
{
    match object_path(object) {
        Ok(o) => Ok(MethodCall { object: o, interface, method, args }),
        Err(e) => Err(e),
    }
}

/// True iff the text has no NUL character.
pub fn has_no_nul(s: &str) -> (r: bool)
    ensures
        r == !s@.contains('\0'),
{
    let n = s.unicode_len();
    let mut i: usize = 0;
    while i < n
        invariant
            n == s@.len(),
            i <= n,
            forall|j: int| 0 <= j < i ==> s@[j] != '\0',
        decreases n - i,
    {
        if s.get_char(i) == '\0' {
            assert(s@[i as int] == '\0');
            return false;
        }
        i = i + 1;
    }
    true
}

/// An object path for a method call argument; an invalid path (or one with a NUL
/// character) is an error.
pub fn object_path(s: &str) -> (r: Result<String, NetworkManagerError>)
    ensures
        r is Ok <==> (valid_object_path(s@) && !s@.contains('\0')),
        r matches Ok(p) ==> p@ == s@,
        r is Err ==> (r matches Err(NetworkManagerError::Generic(m)) && m@ == "Invalid object path"@),
{
    if has_no_nul(s) && check_object_path(s) {
        Ok(owned(s))
    } else {
        Err(NetworkManagerError::Generic(owned("Invalid object path")))
    }
}

} // verus!
