//! Finding a stored connection by the access point's hardware address or by SSID.

use vstd::prelude::*;
use crate::network_backend::nm::wifi_settings::WiFiConnectionSettings;
use crate::text::str_eq;

verus! {

/// How `connect_to` looks for a stored connection to update.
#[derive(Debug, PartialEq)]
pub enum ConnectionLookup {
    /// A connection that has seen the access point with this hardware address.
    ByMac(String),
    /// A connection to the same SSID.
    BySsid,
    /// No lookup: a new connection is created.
    CreateNew,
}

/// The lookup for a connection attempt: by the access point's address if it is known,
/// otherwise by SSID if same-SSID connections may be overwritten, otherwise none.
pub fn connection_lookup(hw: Option<String>, overwrite_same_ssid_connection: bool) -> (r: ConnectionLookup)
    ensures
        match hw {
            Some(h) => r == ConnectionLookup::ByMac(h),
            None => if overwrite_same_ssid_connection {
                r is BySsid
            } else {
                r is CreateNew
            },
        },
{
    match hw {
        Some(hw) => ConnectionLookup::ByMac(hw),
        None => if overwrite_same_ssid_connection {
            ConnectionLookup::BySsid
        } else {
            ConnectionLookup::CreateNew
        },
    }
}

/// True iff some string of the list has the characters of `s`.
pub open spec fn seq_has_str(l: Seq<String>, s: Seq<char>) -> bool {
    exists|i: int| 0 <= i < l.len() && #[trigger] l[i]@ == s
}

/// True iff some string of the list equals `s`.
pub fn contains_str(l: &Vec<String>, s: &str) -> (r: bool)
    ensures
        r == seq_has_str(l@, s@),
{
    let mut i: usize = 0;
    while i < l.len()
        invariant
            i <= l@.len(),
            forall|j: int| 0 <= j < i ==> l@[j]@ != s@,
        decreases l@.len() - i,
    {
        if str_eq(l[i].as_str(), s) {
            return true;
        }
        i = i + 1;
    }
    false
}

/// True iff the stored connection was used with the access point `hw`.
pub open spec fn seen_by(c: Option<WiFiConnectionSettings>, hw: Seq<char>) -> bool {
    match c {
        Some(s) => seq_has_str(s.seen_bssids@, hw),
        None => false,
    }
}

/// True iff the stored connection is one to the SSID.
pub open spec fn for_ssid(c: Option<WiFiConnectionSettings>, ssid: Seq<char>) -> bool {
    match c {
        Some(s) => s.ssid@ == ssid,
        None => false,
    }
}

/// The first stored wifi connection (path and settings; `None` for non-wifi connections)
/// that was used with the access point `hw`.
pub fn find_connection_by_mac(
    connections: &Vec<(String, Option<WiFiConnectionSettings>)>,
    hw: &str,
) -> (r: Option<usize>)
    ensures
        match r {
            Some(i) => i < connections@.len() && seen_by(connections@[i as int].1, hw@)
                && forall|j: int| 0 <= j < i ==> !seen_by(#[trigger] connections@[j].1, hw@),
            None => forall|j: int| 0 <= j < connections@.len() ==> !seen_by(#[trigger] connections@[j].1, hw@),
        },
{
    let mut i: usize = 0;
    while i < connections.len()
        invariant
            i <= connections@.len(),
            forall|j: int| 0 <= j < i ==> !seen_by(#[trigger] connections@[j].1, hw@),
        decreases connections@.len() - i,
    {
        match &connections[i].1 {
            Some(settings) => {
                if contains_str(&settings.seen_bssids, hw) {
                    return Some(i);
                }
            },
            None => {},
        }
        i = i + 1;
    }
    None
}

/// The first stored wifi connection to the SSID.
pub fn find_connection_by_ssid(
    connections: &Vec<(String, Option<WiFiConnectionSettings>)>,
    ssid: &str,
) -> (r: Option<usize>)
    ensures
        match r {
            Some(i) => i < connections@.len() && for_ssid(connections@[i as int].1, ssid@)
                && forall|j: int| 0 <= j < i ==> !for_ssid(#[trigger] connections@[j].1, ssid@),
            None => forall|j: int| 0 <= j < connections@.len() ==> !for_ssid(#[trigger] connections@[j].1, ssid@),
        },
{
    let mut i: usize = 0;
    while i < connections.len()
        invariant
            i <= connections@.len(),
            forall|j: int| 0 <= j < i ==> !for_ssid(#[trigger] connections@[j].1, ssid@),
        decreases connections@.len() - i,
    {
        match &connections[i].1 {
            Some(settings) => {
                if str_eq(settings.ssid.as_str(), ssid) {
                    return Some(i);
                }
            },
            None => {},
        }
        i = i + 1;
    }
    None
}

} // verus!
