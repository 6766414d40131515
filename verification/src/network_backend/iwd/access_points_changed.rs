//! # Access point changes reported by iwd
//! iwd reports added and removed objects with their interfaces; only networks count.

use vstd::prelude::*;
use crate::text::str_eq;

verus! {

/// True iff the list names the iwd network interface.
pub open spec fn names_network(interfaces: Seq<String>) -> bool {
    exists|i: int| 0 <= i < interfaces.len() && #[trigger] interfaces[i]@ == "net.connman.iwd.Network"@
}

/// True iff an added or removed object is a network (it has the "net.connman.iwd.Network" interface).
pub fn is_network_change(interfaces_and_properties: &Vec<String>) -> (r: bool)
    ensures
        r == names_network(interfaces_and_properties@),
{
    let mut i: usize = 0;
    while i < interfaces_and_properties.len()
        invariant
            i <= interfaces_and_properties@.len(),
            forall|j: int| 0 <= j < i ==> interfaces_and_properties@[j]@ != "net.connman.iwd.Network"@,
        decreases interfaces_and_properties@.len() - i,
    {
        if str_eq(interfaces_and_properties[i].as_str(), "net.connman.iwd.Network") {
            return true;
        }
        i = i + 1;
    }
    false
}

} // verus!
