use vstd::prelude::*;

verus! {

/// Why a price could not be computed.
#[derive(Clone, Copy, Debug, PartialEq, Eq, Structural)]
pub enum SwapError {
    /// A tick lies outside the range that has a price.
    TickOutOfRange,
    /// A square-root price lies outside the range that has a tick.
    PriceOutOfRange,
    /// Crossing a tick would leave the pool with negative liquidity.
    LiquidityUnderflow,
    /// The price bound was reached, or nothing more could be traded, with input left over.
    InsufficientLiquidity,
    /// The input token is neither of the pool's two tokens.
    UnknownToken,
    /// An intermediate quantity does not fit its fixed-width integer.
    Overflow,
    /// The divisor of the constant-product formula is zero.
    ZeroReserve,
    /// The computed output is more than the pool holds.
    ReserveExceeded,
    /// The input is too small to buy anything.
    ZeroOutput,
}

} // verus!
