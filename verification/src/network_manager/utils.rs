//! Helpers to fill setting dictionaries and to check passphrases.

use vstd::prelude::*;
use vstd::string::*;
use vstd::utf8::is_ascii_chars;
use crate::network_manager::errors::NetworkManagerError;
use crate::settings::{SettingValue, ValueView, VariantMap};
use crate::text::{concat, owned, u64_to_decimal};
use crate::utils::{too_long_message, too_short_message};

verus! {

/// Sets `key` to `value`.
pub fn add_val(map: &mut VariantMap, key: &str, value: SettingValue)
    ensures
        final(map)@ == old(map)@.insert(key@, value@),
        final(map)@.len() == old(map)@.len() + if old(map)@.contains_key(key@) { 0int } else { 1int },
{
    map.insert(owned(key), value);
}

/// Sets `key` to the string `value`.
pub fn add_str(map: &mut VariantMap, key: &str, value: &str)
    ensures
        final(map)@ == old(map)@.insert(key@, ValueView::Str(value@)),
        final(map)@.len() == old(map)@.len() + if old(map)@.contains_key(key@) { 0int } else { 1int },
{
    map.insert(owned(key), SettingValue::Str(owned(value)));
}

/// Sets `key` to the string `value`.
pub fn add_string(map: &mut VariantMap, key: &str, value: String)
    ensures
        final(map)@ == old(map)@.insert(key@, ValueView::Str(value@)),
        final(map)@.len() == old(map)@.len() + if old(map)@.contains_key(key@) { 0int } else { 1int },
{
    map.insert(owned(key), SettingValue::Str(value));
}

/// Tells whether every byte of the text is ASCII. Calls `ascii::AsciiStr::from_ascii`,
/// which succeeds exactly when all bytes are below 128, that is when all characters are ASCII.
#[verifier::external_body]
fn is_ascii_text(s: &str) -> (r: bool)
    ensures
        r == is_ascii_chars(s@),
{
    ascii::AsciiStr::from_ascii(s).is_ok()
}

/// The length of an ASCII text in bytes is its number of characters.
proof fn lemma_ascii_len(s: Seq<char>)
    requires
        is_ascii_chars(s),
    ensures
        vstd::utf8::encode_utf8(s).len() == s.len(),
{
    vstd::utf8::is_ascii_chars_encode_utf8(s);
}

/// The error text for a pre shared key that is not ASCII or not 8 to 32 characters long.
pub open spec fn ascii_password_problem(p: Seq<char>) -> Seq<char> {
    if !is_ascii_chars(p) {
        "Not an ASCII password"@
    } else if p.len() < 8 {
        too_short_message(p.len())
    } else {
        too_long_message(p.len())
    }
}

/// A pre shared key must be ASCII and 8 to 32 characters long.
pub fn verify_ascii_password(password: String) -> (r: Result<String, NetworkManagerError>)
    ensures
        !is_ascii_chars(password@) ==> (r matches Err(NetworkManagerError::PreSharedKey(m))
            && m@ == "Not an ASCII password"@),
        is_ascii_chars(password@) && password@.len() < 8 ==> (r matches Err(NetworkManagerError::PreSharedKey(m))
            && m@ == too_short_message(password@.len())),
        is_ascii_chars(password@) && password@.len() > 32 ==> (r matches Err(NetworkManagerError::PreSharedKey(m))
            && m@ == too_long_message(password@.len())),
        is_ascii_chars(password@) && 8 <= password@.len() <= 32 ==> r == Ok::<String, NetworkManagerError>(password),
{
    if !is_ascii_text(password.as_str()) {
        return Err(NetworkManagerError::pre_shared_key(owned("Not an ASCII password")));
    }
    proof {
        lemma_ascii_len(password@);
    }
    let len = password.as_str().as_bytes().len();
    if len < 8 {
        let d = u64_to_decimal(len as u64);
        let mut m = concat("Password length should be at least 8 characters: ", d.as_str());
        m.append(" len");
        Err(NetworkManagerError::pre_shared_key(m))
    } else if len > 32 {
        let d = u64_to_decimal(len as u64);
        let mut m = concat("Password length should not exceed 64: ", d.as_str());
        m.append(" len");
        Err(NetworkManagerError::pre_shared_key(m))
    } else {
        Ok(password)
    }
}

} // verus!
