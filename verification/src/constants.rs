use vstd::prelude::*;

verus! {

/// Account keys are modeled as plain integers. The runtime's addresses enter
/// this crate only through what the logic reads of them: identity and order,
/// which a fixed-width integer carries faithfully.
///
/// Key of the wrapped native-currency mint. Any fixed, well-known value serves
/// in the key model; the runtime pins the real address. A launch's own mint is
/// always distinct from it.
pub const WSOL_MINT_ADDRESS: u64 = 1_111_111_111_111_112;

/// Denominator of basis-point fee calculations: a fee of `bps` basis points on
/// `amount` is `amount * bps / BPS_DENOMINATOR`, rounded down.
pub const BPS_DENOMINATOR: u64 = 10000;

} // verus!
