//! # Utility methods

use vstd::prelude::*;
use vstd::string::*;
use crate::errors::CaptivePortalError;
use crate::text::{concat, decimal, u64_to_decimal};

verus! {

/// The text of the error for a passphrase that is `len` characters long and too short.
pub open spec fn too_short_message(len: nat) -> Seq<char> {
    "Password length should be at least 8 characters: "@ + decimal(len) + " len"@
}

/// The text of the error for a passphrase that is `len` characters long and too long.
pub open spec fn too_long_message(len: nat) -> Seq<char> {
    "Password length should not exceed 64: "@ + decimal(len) + " len"@
}

/// True iff a passphrase has an accepted length: 8 to 32 characters.
pub open spec fn password_ok(p: Seq<char>) -> bool {
    8 <= p.len() <= 32
}

/// The error text for a passphrase of unaccepted length.
pub open spec fn password_problem(p: Seq<char>) -> Seq<char> {
    if p.len() < 8 {
        too_short_message(p.len())
    } else {
        too_long_message(p.len())
    }
}

/// A wifi password must be between 8 and 32 characters.
pub fn verify_password(password: &str) -> (r: Result<(), CaptivePortalError>)
    ensures
        password@.len() < 8 ==> (r matches Err(CaptivePortalError::InvalidSharedKey(m))
            && m@ == too_short_message(password@.len())),
        password@.len() > 32 ==> (r matches Err(CaptivePortalError::InvalidSharedKey(m))
            && m@ == too_long_message(password@.len())),
        r is Ok <==> password_ok(password@),
{
    let len = password.unicode_len();
    if len < 8 {
        let d = u64_to_decimal(len as u64);
        let mut m = concat("Password length should be at least 8 characters: ", d.as_str());
        m.append(" len");
        assert(m@ == too_short_message(len as nat));
        Err(CaptivePortalError::InvalidSharedKey(m))
    } else if len > 32 {
        let d = u64_to_decimal(len as u64);
        let mut m = concat("Password length should not exceed 64: ", d.as_str());
        m.append(" len");
        assert(m@ == too_long_message(len as nat));
        Err(CaptivePortalError::InvalidSharedKey(m))
    } else {
        Ok(())
    }
}

} // verus!
