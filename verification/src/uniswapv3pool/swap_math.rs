use crate::error::SwapError;
use crate::primitives::U256;
use uniswap_v3_math::error::UniswapV3MathError;
use vstd::prelude::*;

verus! {

/// A fee of one, in the unit in which fees are given (hundredths of a basis point).
pub const FEE_UNIT: u32 = 1_000_000;

/// The largest amount that is not negative when read as a signed 256-bit number.
pub open spec fn max_signed_amount() -> nat {
    0x7fff_ffff_ffff_ffff_ffff_ffff_ffff_ffff_ffff_ffff_ffff_ffff_ffff_ffff_ffff_ffffnat
}

/// `max_signed_amount` as a value.
pub fn max_signed_amount_value() -> (r: U256)
    ensures
        r@ == max_signed_amount(),
{
    U256::from_limbs(
        [0xffff_ffff_ffff_ffff, 0xffff_ffff_ffff_ffff, 0xffff_ffff_ffff_ffff, 0x7fff_ffff_ffff_ffff],
    )
}

/// What one step of a swap does.
#[derive(Clone, Copy, Debug)]
pub struct SwapStep {
    /// The price after the step.
    pub sqrt_price_next_x96: U256,
    /// The input that was traded.
    pub amount_in: U256,
    /// The output that was paid.
    pub amount_out: U256,
    /// The input that was kept as the fee.
    pub fee_amount: U256,
}

/// The numbers of a step.
pub struct SwapStepView {
    pub sqrt_price_next: nat,
    pub amount_in: nat,
    pub amount_out: nat,
    pub fee_amount: nat,
}

impl View for SwapStep {
    type V = SwapStepView;

    open spec fn view(&self) -> SwapStepView {
        SwapStepView {
            sqrt_price_next: self.sqrt_price_next_x96@,
            amount_in: self.amount_in@,
            amount_out: self.amount_out@,
            fee_amount: self.fee_amount@,
        }
    }
}

/// What the fixed-point routine `compute_swap_step` returns for an exact-input step from
/// price `current` towards price `target`, with `liquidity` in range, `remaining` input
/// left and a fee of `fee_pips`: the next price, the input traded, the output paid and
/// the fee, or nothing where the routine fails.
pub uninterp spec fn swap_step(
    current: nat,
    target: nat,
    liquidity: nat,
    remaining: nat,
    fee_pips: nat,
) -> Option<(nat, nat, nat, nat)>;

/// Calls `uniswap_v3_math::swap_math::compute_swap_step` with `amount_remaining` as a
/// signed amount that is not negative, which asks for an exact-input step.
///
/// What it returns is a function of the five arguments alone. The fee may not exceed
/// `FEE_UNIT`, from which the routine subtracts it.
#[verifier::external_body]
fn compute_swap_step_call(
    sqrt_ratio_current_x96: U256,
    sqrt_ratio_target_x96: U256,
    liquidity: u128,
    amount_remaining: U256,
    fee_pips: u32,
) -> (r: Result<(U256, U256, U256, U256), UniswapV3MathError>)
    requires
        amount_remaining@ <= max_signed_amount(),
        fee_pips <= FEE_UNIT,
    ensures
        swap_step(
            sqrt_ratio_current_x96@,
            sqrt_ratio_target_x96@,
            liquidity as nat,
            amount_remaining@,
            fee_pips as nat,
        ) == (match r {
            Ok(step) => Some((step.0@, step.1@, step.2@, step.3@)),
            Err(_) => None,
        }),
{
    let remaining = alloy::primitives::I256::from_raw(
        alloy::primitives::U256::from_limbs(amount_remaining.limbs),
    );
    let current = alloy::primitives::U256::from_limbs(sqrt_ratio_current_x96.limbs);
    let target = alloy::primitives::U256::from_limbs(sqrt_ratio_target_x96.limbs);
    match uniswap_v3_math::swap_math::compute_swap_step(current, target, liquidity, remaining, fee_pips) {
        Ok(step) => Ok(
            (U256 { limbs: step.0.into_limbs() }, U256 { limbs: step.1.into_limbs() }, U256 {
                limbs: step.2.into_limbs(),
            }, U256 { limbs: step.3.into_limbs() }),
        ),
        Err(e) => Err(e),
    }
}

/// What `compute_swap_step` returns where the routine's own answer is `found`.
pub open spec fn step_or_error(found: Option<(nat, nat, nat, nat)>) -> Result<
    SwapStepView,
    SwapError,
> {
    match found {
        Some(step) => Ok(
            SwapStepView {
                sqrt_price_next: step.0,
                amount_in: step.1,
                amount_out: step.2,
                fee_amount: step.3,
            },
        ),
        None => Err(SwapError::Overflow),
    }
}

/// A step or an error, the step as numbers.
pub open spec fn step_view(r: Result<SwapStep, SwapError>) -> Result<SwapStepView, SwapError> {
    match r {
        Ok(step) => Ok(step@),
        Err(e) => Err(e),
    }
}

/// One step of an exact-input swap: how far the price moves from `sqrt_ratio_current_x96`
/// towards `sqrt_ratio_target_x96` on `amount_remaining` of input, and what is traded on
/// the way. `Overflow` where the fixed-point routine fails.
pub fn compute_swap_step(
    sqrt_ratio_current_x96: U256,
    sqrt_ratio_target_x96: U256,
    liquidity: u128,
    amount_remaining: U256,
    fee_pips: u32,
) -> (r: Result<SwapStep, SwapError>)
    requires
        amount_remaining@ <= max_signed_amount(),
        fee_pips <= FEE_UNIT,
    ensures
        step_view(r) == step_or_error(
            swap_step(
                sqrt_ratio_current_x96@,
                sqrt_ratio_target_x96@,
                liquidity as nat,
                amount_remaining@,
                fee_pips as nat,
            ),
        ),
{
    match compute_swap_step_call(
        sqrt_ratio_current_x96,
        sqrt_ratio_target_x96,
        liquidity,
        amount_remaining,
        fee_pips,
    ) {
        Ok(step) => Ok(
            SwapStep {
                sqrt_price_next_x96: step.0,
                amount_in: step.1,
                amount_out: step.2,
                fee_amount: step.3,
            },
        ),
        Err(_) => Err(SwapError::Overflow),
    }
}

} // verus!
