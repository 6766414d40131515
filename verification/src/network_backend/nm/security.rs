//! The strongest encryption mode an access point offers, from its flags.

use vstd::prelude::*;
use crate::network_interface::Security;
use crate::nm::security::{known, known_flags, AP_FLAGS_ALL, AP_FLAGS_PRIVACY, AP_SEC_ALL, AP_SEC_KEY_MGMT_802_1X};

verus! {

/// The strongest mode for (known) access point flags: enterprise for 802.1x key
/// management, WPA2 for RSN flags, WPA for WPA flags, WEP for privacy without WPA/RSN,
/// open otherwise.
pub open spec fn strongest_security(flags: u32, wpa_flags: u32, rsn_flags: u32) -> Security {
    if wpa_flags & AP_SEC_KEY_MGMT_802_1X == AP_SEC_KEY_MGMT_802_1X || rsn_flags & AP_SEC_KEY_MGMT_802_1X
        == AP_SEC_KEY_MGMT_802_1X {
        Security::ENTERPRISE
    } else if rsn_flags != 0 {
        Security::WPA2
    } else if wpa_flags != 0 {
        Security::WPA
    } else if flags & AP_FLAGS_PRIVACY == AP_FLAGS_PRIVACY {
        Security::WEP
    } else {
        Security::NONE
    }
}

/// An access point whose WPA or RSN flags (without undefined bits) announce 802.1X key
/// management (bit 0x200) is an enterprise network, whatever other bits are set. One
/// whose flags announce no encryption at all (no privacy bit 0x1, no WPA or RSN flags)
/// is an open network. Among the rest, RSN flags without 802.1X make a WPA2 network,
/// WPA flags alone a WPA network, and the privacy bit alone a WEP network.
pub proof fn lemma_802_1x_is_enterprise(flags: u32, wpa_flags: u32, rsn_flags: u32)
    ensures
        (wpa_flags & 0xffff_fc00 == 0 && rsn_flags & 0xffff_fc00 == 0 && (wpa_flags & 0x200 == 0x200
            || rsn_flags & 0x200 == 0x200)) ==> strongest_security(
            known_flags(flags, AP_FLAGS_ALL),
            known_flags(wpa_flags, AP_SEC_ALL),
            known_flags(rsn_flags, AP_SEC_ALL),
        ) == Security::ENTERPRISE,
        (flags & 0x1 == 0 && wpa_flags == 0 && rsn_flags == 0) ==> strongest_security(
            known_flags(flags, AP_FLAGS_ALL),
            known_flags(wpa_flags, AP_SEC_ALL),
            known_flags(rsn_flags, AP_SEC_ALL),
        ) == Security::NONE,
        (wpa_flags & 0xffff_fc00 == 0 && rsn_flags & 0xffff_fc00 == 0 && wpa_flags & 0x200 == 0
            && rsn_flags & 0x200 == 0 && rsn_flags != 0) ==> strongest_security(
            known_flags(flags, AP_FLAGS_ALL),
            known_flags(wpa_flags, AP_SEC_ALL),
            known_flags(rsn_flags, AP_SEC_ALL),
        ) == Security::WPA2,
        (wpa_flags & 0xffff_fc00 == 0 && wpa_flags & 0x200 == 0 && wpa_flags != 0 && rsn_flags == 0)
            ==> strongest_security(
            known_flags(flags, AP_FLAGS_ALL),
            known_flags(wpa_flags, AP_SEC_ALL),
            known_flags(rsn_flags, AP_SEC_ALL),
        ) == Security::WPA,
        (flags & 0xffff_fff0 == 0 && flags & 0x1 == 0x1 && wpa_flags == 0 && rsn_flags == 0) ==> strongest_security(
            known_flags(flags, AP_FLAGS_ALL),
            known_flags(wpa_flags, AP_SEC_ALL),
            known_flags(rsn_flags, AP_SEC_ALL),
        ) == Security::WEP,
{
    assert(flags & 0xffff_fff0 == 0 ==> flags & !0xfu32 == 0) by (bit_vector);
    assert(wpa_flags & 0xffff_fc00 == 0 ==> wpa_flags & !0x3ffu32 == 0) by (bit_vector);
    assert(rsn_flags & 0xffff_fc00 == 0 ==> rsn_flags & !0x3ffu32 == 0) by (bit_vector);
    assert(0u32 & 0x200 == 0) by (bit_vector);
    assert(flags & 0x1 == 0 ==> (flags & 0xf) & 0x1 == 0) by (bit_vector);
    assert(flags & !0xfu32 != 0 || flags & !0xfu32 == 0);
    assert(0u32 & 0x1 == 0) by (bit_vector);
    assert(0u32 & !0x3ffu32 == 0) by (bit_vector);
}

/// Returns the strongest supported encryption mode of an access point from its flags,
/// WPA flags and RSN flags. Flags with undefined bits read as no flags.
pub fn get_access_point_security(flags: u32, wpa_flags: u32, rsn_flags: u32) -> (r: Security)
    ensures
        r == strongest_security(
            known_flags(flags, AP_FLAGS_ALL),
            known_flags(wpa_flags, AP_SEC_ALL),
            known_flags(rsn_flags, AP_SEC_ALL),
        ),
        // Flags without undefined bits that announce 802.1X key management (0x200) make an
        // enterprise network, whatever else they announce.
        (wpa_flags & 0xffff_fc00 == 0 && rsn_flags & 0xffff_fc00 == 0 && (wpa_flags & 0x200 == 0x200
            || rsn_flags & 0x200 == 0x200)) ==> r == Security::ENTERPRISE,
{
    proof {
        lemma_802_1x_is_enterprise(flags, wpa_flags, rsn_flags);
    }
    let flags = known(flags, AP_FLAGS_ALL);
    let wpa_flags = known(wpa_flags, AP_SEC_ALL);
    let rsn_flags = known(rsn_flags, AP_SEC_ALL);

    if wpa_flags & AP_SEC_KEY_MGMT_802_1X == AP_SEC_KEY_MGMT_802_1X
        || rsn_flags & AP_SEC_KEY_MGMT_802_1X == AP_SEC_KEY_MGMT_802_1X {
        return Security::ENTERPRISE;
    }
    if rsn_flags != 0 {
        return Security::WPA2;
    }
    if wpa_flags != 0 {
        return Security::WPA;
    }
    if flags & AP_FLAGS_PRIVACY == AP_FLAGS_PRIVACY && wpa_flags == 0 && rsn_flags == 0 {
        return Security::WEP;
    }
    Security::NONE
}

} // verus!
