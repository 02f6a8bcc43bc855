//! Account addresses.
use vstd::prelude::*;

verus! {

/// The address of an account: thirty-two bytes.
pub type Pubkey = [u8; 32];

} // verus!
