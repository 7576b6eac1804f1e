use crate::error::SwapError;
use crate::primitives::U256;
use uniswap_v3_math::error::UniswapV3MathError;
use vstd::prelude::*;

verus! {

/// The error type of the fixed-point routines; nothing is known of a value of it.
#[verifier::external_type_specification]
#[verifier::external_body]
pub struct ExUniswapV3MathError(uniswap_v3_math::error::UniswapV3MathError);

/// The lowest tick that has a price.
pub const MIN_TICK: i32 = -887272;

/// The highest tick that has a price.
pub const MAX_TICK: i32 = 887272;

/// The lowest square-root price that has a tick, as a Q64.96 number.
pub open spec fn min_sqrt_ratio() -> nat {
    4295128739
}

/// The square-root price above all those that have a tick, as a Q64.96 number.
pub open spec fn max_sqrt_ratio() -> nat {
    1461446703485210103287273052203988822378723970342nat
}

/// `min_sqrt_ratio` as a value.
pub fn min_sqrt_ratio_x96() -> (r: U256)
    ensures
        r@ == min_sqrt_ratio(),
{
    U256::from_limbs([4295128739, 0, 0, 0])
}

/// `max_sqrt_ratio` as a value.
pub fn max_sqrt_ratio_x96() -> (r: U256)
    ensures
        r@ == max_sqrt_ratio(),
{
    U256::from_limbs([6743328256752651558, 17280870778742802505, 4294805859, 0])
}

/// The square root of `1.0001^tick` as a Q64.96 number, as the fixed-point routine
/// `get_sqrt_ratio_at_tick` computes it for a tick between `MIN_TICK` and `MAX_TICK`.
pub uninterp spec fn sqrt_ratio_at_tick(tick: int) -> nat;

/// The tick that the fixed-point routine `get_tick_at_sqrt_ratio` finds for a square-root
/// price, where it finds one.
pub uninterp spec fn tick_at_sqrt_ratio(sqrt_price_x96: nat) -> Option<int>;

/// Calls `uniswap_v3_math::tick_math::get_sqrt_ratio_at_tick`.
///
/// That function rejects a tick only where its magnitude is above `MAX_TICK`, so on the
/// ticks admitted here it answers; the answer is a function of the tick alone.
#[verifier::external_body]
fn sqrt_ratio_at_tick_call(tick: i32) -> (r: Result<U256, UniswapV3MathError>)
    requires
        MIN_TICK <= tick <= MAX_TICK,
    ensures
        r is Ok,
        r->Ok_0@ == sqrt_ratio_at_tick(tick as int),
{
    match uniswap_v3_math::tick_math::get_sqrt_ratio_at_tick(tick) {
        Ok(ratio) => Ok(U256 { limbs: ratio.into_limbs() }),
        Err(e) => Err(e),
    }
}

/// Calls `uniswap_v3_math::tick_math::get_tick_at_sqrt_ratio`.
///
/// That function first rejects a price below `min_sqrt_ratio` or not below
/// `max_sqrt_ratio`; whether and what it answers is a function of the price alone.
#[verifier::external_body]
fn tick_at_sqrt_ratio_call(sqrt_price_x96: U256) -> (r: Result<i32, UniswapV3MathError>)
    ensures
        tick_at_sqrt_ratio(sqrt_price_x96@) == (match r {
            Ok(tick) => Some(tick as int),
            Err(_) => None,
        }),
        !(min_sqrt_ratio() <= sqrt_price_x96@ < max_sqrt_ratio()) ==> r is Err,
{
    uniswap_v3_math::tick_math::get_tick_at_sqrt_ratio(
        alloy::primitives::U256::from_limbs(sqrt_price_x96.limbs),
    )
}

/// The square-root price at `tick`, or `TickOutOfRange` where the tick has none.
pub fn get_sqrt_ratio_at_tick(tick: i32) -> (r: Result<U256, SwapError>)
    ensures
        MIN_TICK <= tick <= MAX_TICK ==> r is Ok && r->Ok_0@ == sqrt_ratio_at_tick(tick as int),
        !(MIN_TICK <= tick <= MAX_TICK) ==> r == Err::<U256, SwapError>(SwapError::TickOutOfRange),
{
    if tick < MIN_TICK || tick > MAX_TICK {
        return Err(SwapError::TickOutOfRange);
    }
    match sqrt_ratio_at_tick_call(tick) {
        Ok(ratio) => Ok(ratio),
        Err(_) => Err(SwapError::TickOutOfRange),
    }
}

/// What `get_tick_at_sqrt_ratio` returns where the routine's own answer for the price is
/// `found`.
pub open spec fn tick_or_error(found: Option<int>) -> Result<int, SwapError> {
    match found {
        Some(tick) => Ok(tick),
        None => Err(SwapError::PriceOutOfRange),
    }
}

/// The tick whose price range holds `sqrt_price_x96`, or `PriceOutOfRange`: always so for
/// a price below `min_sqrt_ratio` or not below `max_sqrt_ratio`.
pub fn get_tick_at_sqrt_ratio(sqrt_price_x96: U256) -> (r: Result<i32, SwapError>)
    ensures
        (match r {
            Ok(tick) => Ok::<int, SwapError>(tick as int),
            Err(e) => Err(e),
        }) == tick_or_error(tick_at_sqrt_ratio(sqrt_price_x96@)),
        !(min_sqrt_ratio() <= sqrt_price_x96@ < max_sqrt_ratio()) ==> r == Err::<i32, SwapError>(
            SwapError::PriceOutOfRange,
        ),
{
    match tick_at_sqrt_ratio_call(sqrt_price_x96) {
        Ok(tick) => Ok(tick),
        Err(_) => Err(SwapError::PriceOutOfRange),
    }
}

} // verus!
