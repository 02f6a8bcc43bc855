//! Account discriminators: the eight ASCII bytes that open each kind of
//! account.
use vstd::prelude::*;

verus! {

/// `POOLSWAP`
pub const POOL: [u8; 8] = [80, 79, 79, 76, 83, 87, 65, 80];

/// `NPOOLSWA`
pub const NPOOL: [u8; 8] = [78, 80, 79, 79, 76, 83, 87, 65];

/// `FARMSWAP`
pub const FARM: [u8; 8] = [70, 65, 82, 77, 83, 87, 65, 80];

/// `UFARMSWA`
pub const UFARM: [u8; 8] = [85, 70, 65, 82, 77, 83, 87, 65];

/// `LOTTERY!`
pub const LOTTERY: [u8; 8] = [76, 79, 84, 84, 69, 82, 89, 33];

/// `LOTENTRY`
pub const LOTENTRY: [u8; 8] = [76, 79, 84, 69, 78, 84, 82, 89];

/// `REGISTRY`
pub const REGISTRY: [u8; 8] = [82, 69, 71, 73, 83, 84, 82, 89];

} // verus!
