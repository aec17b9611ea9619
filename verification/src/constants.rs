use vstd::prelude::*;

verus! {

/// One whole in basis points: fees are expressed in parts of this.
pub const MAX_BPS: u16 = 10_000;

/// Decimals of the pool's LP mint, also the precision handed to the curve.
pub const LP_DECIMALS: u8 = 6;

} // verus!
