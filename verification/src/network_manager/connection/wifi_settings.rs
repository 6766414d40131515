//! The settings of a stored connection, as far as the client looks at them.

use vstd::prelude::*;
use crate::network_manager::connection::ssid::Ssid;
use crate::network_manager::errors::NetworkManagerError;
use crate::settings::{SettingValue, ValueView, VariantMap};
use crate::text::owned;

verus! {

#[derive(Debug, PartialEq)]
pub struct WiFiConnectionSettings {
    /// The connection type; `type` is a reserved word
    pub kind: String,
    pub id: String,
    pub uuid: String,
    /// According to last standard 802.11-2012 (Section 6.3.11.2.2),
    /// a SSID can be 0-32 octets with an unspecified or UTF8 encoding.
    pub ssid: Ssid,
    pub mode: String,
}

/// True iff the value stored for `key` (if any) has the expected kind: bytes for the
/// SSID, a string otherwise.
pub open spec fn well_typed(m: Map<Seq<char>, ValueView>, key: Seq<char>, bytes: bool) -> bool {
    m.contains_key(key) ==> if bytes {
        m[key] is Bytes
    } else {
        m[key] is Str
    }
}

/// True iff a section's values for the read keys have the expected kinds.
pub open spec fn section_ok(m: Map<Seq<char>, ValueView>) -> bool {
    &&& well_typed(m, "id"@, false)
    &&& well_typed(m, "uuid"@, false)
    &&& well_typed(m, "type"@, false)
    &&& well_typed(m, "ssid"@, true)
    &&& well_typed(m, "mode"@, false)
}

/// True iff all sections' values for the read keys have the expected kinds.
pub open spec fn sections_ok(s: Seq<Map<Seq<char>, ValueView>>) -> bool {
    forall|i: int| 0 <= i < s.len() ==> section_ok(#[trigger] s[i])
}

/// The string of the last section that holds `key`, or the empty string.
pub open spec fn last_str(s: Seq<Map<Seq<char>, ValueView>>, key: Seq<char>) -> Seq<char>
    decreases s.len(),
{
    if s.len() == 0 {
        Seq::empty()
    } else if s.last().contains_key(key) && s.last()[key] is Str {
        s.last()[key]->Str_0
    } else {
        last_str(s.drop_last(), key)
    }
}

/// The bytes of the last section that holds `key`, or no bytes.
pub open spec fn last_bytes(s: Seq<Map<Seq<char>, ValueView>>, key: Seq<char>) -> Seq<u8>
    decreases s.len(),
{
    if s.len() == 0 {
        Seq::empty()
    } else if s.last().contains_key(key) && s.last()[key] is Bytes {
        s.last()[key]->Bytes_0
    } else {
        last_bytes(s.drop_last(), key)
    }
}

/// The section values of a settings list.
pub open spec fn section_views(sections: Seq<(String, VariantMap)>) -> Seq<Map<Seq<char>, ValueView>> {
    sections.map_values(|p: (String, VariantMap)| p.1@)
}

/// Reads a string field of a section into `field`.
fn read_str(section: &VariantMap, key: &str, field: &mut String) -> (r: Result<(), NetworkManagerError>)
    ensures
        r is Ok <==> well_typed(section@, key@, false),
        r is Ok ==> (if section@.contains_key(key@) {
            final(field)@ == section@[key@]->Str_0
        } else {
            final(field)@ == old(field)@
        }),
{
    match section.get(key) {
        Some(SettingValue::Str(s)) => {
            *field = s.clone();
            Ok(())
        },
        Some(_) => Err(NetworkManagerError::Generic(owned(key))),
        None => Ok(()),
    }
}

/// Reads the settings a connection has: "id", "uuid", "type" (as `kind`), "ssid" and
/// "mode" of any section, the last section holding a key giving its value. A key with a
/// value of another kind (the SSID must be bytes, the others strings) is an error.
pub fn get_connection_settings(sections: &Vec<(String, VariantMap)>) -> (r: Result<WiFiConnectionSettings, NetworkManagerError>)
    ensures
        r is Ok <==> sections_ok(section_views(sections@)),
        r matches Ok(s) ==> ({
            let v = section_views(sections@);
            &&& s.id@ == last_str(v, "id"@)
            &&& s.uuid@ == last_str(v, "uuid"@)
            &&& s.kind@ == last_str(v, "type"@)
            &&& s.mode@ == last_str(v, "mode"@)
            &&& s.ssid@ == last_bytes(v, "ssid"@)
        }),
{
    let ghost all = section_views(sections@);
    let mut kind = String::new();
    let mut id = String::new();
    let mut uuid = String::new();
    let mut ssid: Vec<u8> = Vec::new();
    let mut mode = String::new();
    let mut i: usize = 0;
    while i < sections.len()
        invariant
            i <= sections@.len(),
            all == section_views(sections@),
            sections_ok(all.take(i as int)),
            id@ == last_str(all.take(i as int), "id"@),
            uuid@ == last_str(all.take(i as int), "uuid"@),
            kind@ == last_str(all.take(i as int), "type"@),
            mode@ == last_str(all.take(i as int), "mode"@),
            ssid@ == last_bytes(all.take(i as int), "ssid"@),
        decreases sections@.len() - i,
    {
        let section = &sections[i].1;
        assert(all.take(i + 1).drop_last() =~= all.take(i as int));
        assert(all.take(i + 1).last() == section@);
        match read_str(section, "id", &mut id) {
            Ok(()) => {},
            Err(e) => {
                assert(!section_ok(all[i as int]));
                return Err(e);
            },
        }
        match read_str(section, "uuid", &mut uuid) {
            Ok(()) => {},
            Err(e) => {
                assert(!section_ok(all[i as int]));
                return Err(e);
            },
        }
        match read_str(section, "type", &mut kind) {
            Ok(()) => {},
            Err(e) => {
                assert(!section_ok(all[i as int]));
                return Err(e);
            },
        }
        match section.get("ssid") {
            Some(SettingValue::Bytes(b)) => {
                ssid = b.clone();
            },
            Some(_) => {
                assert(!section_ok(all[i as int]));
                return Err(NetworkManagerError::Generic(owned("ssid")));
            },
            None => {},
        }
        match read_str(section, "mode", &mut mode) {
            Ok(()) => {},
            Err(e) => {
                assert(!section_ok(all[i as int]));
                return Err(e);
            },
        }
        i = i + 1;
        assert(sections_ok(all.take(i as int))) by {
            assert forall|j: int| 0 <= j < i implies section_ok(#[trigger] all.take(i as int)[j]) by {
                if j < i - 1 {
                    assert(all.take(i as int)[j] == all.take(i - 1)[j]);
                }
            }
        }
    }
    assert(all.take(sections@.len() as int) =~= all);
    Ok(WiFiConnectionSettings { kind, id, uuid, ssid: Ssid::from_bytes(ssid), mode })
}

} // verus!
