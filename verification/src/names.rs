//! The name under which a peer's address is shown.

use crate::address::IpAddress;
use vstd::prelude::*;

verus! {

/// Settles on the name to show for an address after a lookup. A lookup that failed
/// is no error: the address stands in for the name.
pub fn name_or_address(address: IpAddress, found: Option<String>) -> (name: String)
    ensures
        found matches Some(n) ==> name == n,
        found is None ==> name@ == address.text(),
{
    match found {
        Some(name) => name,
        None => address.to_text(),
    }
}

} // verus!
