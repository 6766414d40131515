//! Security related types and bit fields.

use vstd::prelude::*;
use crate::errors::CaptivePortalError;
use crate::text::{owned, str_eq};

pub use crate::network_interface::AccessPointCredentials;

verus! {

/// The access point requires authentication and encryption (usually means WEP).
pub const AP_FLAGS_PRIVACY: u32 = 0x0000_0001;
/// All access point flags the network manager defines.
pub const AP_FLAGS_ALL: u32 = 0x0000_000f;
/// 802.1x authentication and key management is supported.
pub const AP_SEC_KEY_MGMT_802_1X: u32 = 0x0000_0200;
/// All access point security flags the network manager defines.
pub const AP_SEC_ALL: u32 = 0x0000_03ff;

pub const SECURITY_NONE: u32 = 0b0000_0000;
pub const SECURITY_WEP: u32 = 0b0000_0001;
pub const SECURITY_WPA: u32 = 0b0000_0010;
pub const SECURITY_WPA2: u32 = 0b0000_0100;
pub const SECURITY_ENTERPRISE: u32 = 0b0000_1000;

/// A set of encryption modes that an access point supports.
#[derive(Copy, Clone, Debug, PartialEq, Eq, Structural)]
pub struct Security {
    pub bits: u32,
}

/// True iff all modes of `other` are in `bits`.
pub open spec fn has_modes(bits: u32, other: u32) -> bool {
    bits & other == other
}

/// The name of the strongest mode in a set of modes.
pub open spec fn security_set_name(bits: u32) -> Seq<char> {
    if has_modes(bits, SECURITY_ENTERPRISE) {
        "enterprise"@
    } else if has_modes(bits, SECURITY_WPA2) || has_modes(bits, SECURITY_WPA) {
        "wpa"@
    } else if has_modes(bits, SECURITY_WEP) {
        "wep"@
    } else {
        "none"@
    }
}

impl Security {
    /// True iff all modes of `other` are in this set.
    pub fn contains(&self, other: u32) -> (r: bool)
        ensures
            r == has_modes(self.bits, other),
    {
        self.bits & other == other
    }

    /// The name of the strongest mode: "enterprise", "wpa" (WPA or WPA2), "wep" or "none".
    pub fn as_str(self) -> (r: &'static str)
        ensures
            r@ == security_set_name(self.bits),
    {
        if self.contains(SECURITY_ENTERPRISE) {
            "enterprise"
        } else if self.contains(SECURITY_WPA2) || self.contains(SECURITY_WPA) {
            "wpa"
        } else if self.contains(SECURITY_WEP) {
            "wep"
        } else {
            "none"
        }
    }
}

/// The flags as the network manager's flag type reads them: flags with an undefined bit
/// are not accepted and read as no flags.
pub open spec fn known_flags(flags: u32, all: u32) -> u32 {
    if flags & !all == 0 {
        flags
    } else {
        0
    }
}

/// The modes of an access point with the given (known) flags, as bits.
pub open spec fn ap_security_bits(flags: u32, wpa_flags: u32, rsn_flags: u32) -> u32 {
    ((if flags & AP_FLAGS_PRIVACY == AP_FLAGS_PRIVACY && wpa_flags == 0 && rsn_flags == 0 {
        SECURITY_WEP
    } else {
        0
    }) + (if wpa_flags != 0 {
        SECURITY_WPA
    } else {
        0
    }) + (if rsn_flags != 0 {
        SECURITY_WPA2
    } else {
        0
    }) + (if wpa_flags & AP_SEC_KEY_MGMT_802_1X == AP_SEC_KEY_MGMT_802_1X || rsn_flags
        & AP_SEC_KEY_MGMT_802_1X == AP_SEC_KEY_MGMT_802_1X {
        SECURITY_ENTERPRISE
    } else {
        0
    })) as u32
}

/// Reads flags with the undefined-bit rule of the flag types.
pub fn known(flags: u32, all: u32) -> (r: u32)
    ensures
        r == known_flags(flags, all),
{
    if flags & !all == 0 {
        flags
    } else {
        0
    }
}

/// The encryption modes of an access point, from its flags, WPA flags and RSN flags:
/// WEP if it requires privacy without WPA/RSN, WPA for WPA flags, WPA2 for RSN flags and
/// enterprise for 802.1x key management.
pub fn get_access_point_security(flags: u32, wpa_flags: u32, rsn_flags: u32) -> (r: Security)
    ensures
        r.bits == ap_security_bits(
            known_flags(flags, AP_FLAGS_ALL),
            known_flags(wpa_flags, AP_SEC_ALL),
            known_flags(rsn_flags, AP_SEC_ALL),
        ),
{
    let flags = known(flags, AP_FLAGS_ALL);
    let wpa_flags = known(wpa_flags, AP_SEC_ALL);
    let rsn_flags = known(rsn_flags, AP_SEC_ALL);

    let mut security: u32 = SECURITY_NONE;

    if flags & AP_FLAGS_PRIVACY == AP_FLAGS_PRIVACY && wpa_flags == 0 && rsn_flags == 0 {
        security = security + SECURITY_WEP;
    }
    if wpa_flags != 0 {
        security = security + SECURITY_WPA;
    }
    if rsn_flags != 0 {
        security = security + SECURITY_WPA2;
    }
    if wpa_flags & AP_SEC_KEY_MGMT_802_1X == AP_SEC_KEY_MGMT_802_1X
        || rsn_flags & AP_SEC_KEY_MGMT_802_1X == AP_SEC_KEY_MGMT_802_1X {
        security = security + SECURITY_ENTERPRISE;
    }
    Security { bits: security }
}

/// The credentials for a passphrase, identity and mode, or `None` if they do not fit.
pub open spec fn credentials_spec(
    passphrase: Option<String>,
    identity: Option<String>,
    mode: Seq<char>,
) -> Option<AccessPointCredentials> {
    if mode == "enterprise"@ {
        match (identity, passphrase) {
            (Some(i), Some(p)) => Some(AccessPointCredentials::Enterprise { identity: i, passphrase: p }),
            _ => None,
        }
    } else if mode == "wpa"@ {
        match passphrase {
            Some(p) => Some(AccessPointCredentials::Wpa { passphrase: p }),
            None => None,
        }
    } else if mode == "wep"@ {
        match passphrase {
            Some(p) => Some(AccessPointCredentials::Wep { passphrase: p }),
            None => None,
        }
    } else if mode == "open"@ || mode == "none"@ || mode == ""@ {
        Some(AccessPointCredentials::Open)
    } else {
        None
    }
}

/// True iff the mode is one of the security modes a user can choose.
pub open spec fn known_mode(mode: Seq<char>) -> bool {
    mode == "enterprise"@ || mode == "wpa"@ || mode == "wep"@ || mode == "open"@ || mode == "none"@ || mode == ""@
}

/// True iff `e` is the error for credentials that do not fit the mode: a missing key
/// for a known mode, otherwise the unknown mode.
pub open spec fn credentials_error(e: CaptivePortalError, mode: Seq<char>) -> bool {
    if known_mode(mode) {
        e is NoSharedKeyProvided
    } else {
        e matches CaptivePortalError::Generic(m) && m@ == "Expected an encryption mode. Got: "@ + mode
    }
}

/// The credentials a user entered for a security mode.
/// "enterprise" needs an identity and a passphrase, "wpa" and "wep" a passphrase;
/// "open", "none" and "" need nothing. Other modes are errors.
pub fn credentials_from_data(
    passphrase: Option<String>,
    identity: Option<String>,
    mode: &str,
) -> (r: Result<AccessPointCredentials, CaptivePortalError>)
    ensures
        r is Ok <==> credentials_spec(passphrase, identity, mode@) is Some,
        r matches Ok(c) ==> credentials_spec(passphrase, identity, mode@) == Some(c),
        r matches Err(e) ==> credentials_error(e, mode@),
        mode@ == "enterprise"@ ==> match (identity, passphrase) {
            (Some(i), Some(p)) => r == Ok::<AccessPointCredentials, CaptivePortalError>(
                AccessPointCredentials::Enterprise { identity: i, passphrase: p }),
            _ => r matches Err(CaptivePortalError::NoSharedKeyProvided),
        },
        mode@ == "wpa"@ ==> match passphrase {
            Some(p) => r == Ok::<AccessPointCredentials, CaptivePortalError>(
                AccessPointCredentials::Wpa { passphrase: p }),
            None => r matches Err(CaptivePortalError::NoSharedKeyProvided),
        },
        mode@ == "wep"@ ==> match passphrase {
            Some(p) => r == Ok::<AccessPointCredentials, CaptivePortalError>(
                AccessPointCredentials::Wep { passphrase: p }),
            None => r matches Err(CaptivePortalError::NoSharedKeyProvided),
        },
        (mode@ == "open"@ || mode@ == "none"@ || mode@ == ""@) ==> r
            == Ok::<AccessPointCredentials, CaptivePortalError>(AccessPointCredentials::Open),
        !(mode@ == "enterprise"@ || mode@ == "wpa"@ || mode@ == "wep"@ || mode@ == "open"@
            || mode@ == "none"@ || mode@ == ""@) ==> (r matches Err(CaptivePortalError::Generic(m))
            && m@ == "Expected an encryption mode. Got: "@ + mode@),
{
    proof {
        reveal_strlit("enterprise");
        reveal_strlit("wpa");
        reveal_strlit("wep");
        reveal_strlit("open");
        reveal_strlit("none");
        reveal_strlit("");
        assert("enterprise"@.len() == 10 && "wpa"@.len() == 3 && "wep"@.len() == 3);
        assert("open"@.len() == 4 && "none"@.len() == 4 && ""@.len() == 0);
        assert("wpa"@ != "enterprise"@);
        assert("wep"@ != "enterprise"@);
        assert("wep"@ != "wpa"@) by { assert("wpa"@[1] != "wep"@[1]); }
        assert("open"@ != "enterprise"@ && "open"@ != "wpa"@ && "open"@ != "wep"@);
        assert("none"@ != "enterprise"@ && "none"@ != "wpa"@ && "none"@ != "wep"@);
        assert(""@ != "enterprise"@ && ""@ != "wpa"@ && ""@ != "wep"@);
    }
    if str_eq(mode, "enterprise") {
        match identity {
            Some(identity) => match passphrase {
                Some(passphrase) => Ok(AccessPointCredentials::Enterprise { identity, passphrase }),
                None => Err(CaptivePortalError::NoSharedKeyProvided),
            },
            None => Err(CaptivePortalError::NoSharedKeyProvided),
        }
    } else if str_eq(mode, "wpa") {
        match passphrase {
            Some(passphrase) => Ok(AccessPointCredentials::Wpa { passphrase }),
            None => Err(CaptivePortalError::NoSharedKeyProvided),
        }
    } else if str_eq(mode, "wep") {
        match passphrase {
            Some(passphrase) => Ok(AccessPointCredentials::Wep { passphrase }),
            None => Err(CaptivePortalError::NoSharedKeyProvided),
        }
    } else if str_eq(mode, "open") || str_eq(mode, "none") || str_eq(mode, "") {
        Ok(AccessPointCredentials::Open)
    } else {
        Err(CaptivePortalError::Generic(crate::text::concat("Expected an encryption mode. Got: ", mode)))
    }
}

} // verus!
