use super::{PoolData, PoolState};
use crate::error::SwapError;
use crate::primitives::{checked_add, checked_div, checked_mul, pow2_256, Address, U256};
use vstd::arithmetic::div_mod::{lemma_div_is_ordered, lemma_div_multiples_vanish, lemma_fundamental_div_mod};
use vstd::arithmetic::mul::lemma_mul_is_commutative;
use vstd::prelude::*;

verus! {

/// The denominator of the fee: a fee of 9970 leaves 99.7% of the input to be traded.
pub const FEE_DENOMINATOR: u64 = 10000;

/// The input that is traded after the fee, scaled by the fee's denominator.
pub open spec fn amount_in_with_fee(amount_in: nat, fee: nat) -> nat {
    amount_in * fee
}

/// The dividend of the constant-product formula.
pub open spec fn numerator(amount_in: nat, fee: nat, reserve_out: nat) -> nat {
    amount_in_with_fee(amount_in, fee) * reserve_out
}

/// The divisor of the constant-product formula.
pub open spec fn denominator(amount_in: nat, fee: nat, reserve_in: nat) -> nat {
    reserve_in * (FEE_DENOMINATOR as nat) + amount_in_with_fee(amount_in, fee)
}

/// Whether one of the formula's intermediate quantities needs more than 256 bits.
pub open spec fn overflows(amount_in: nat, fee: nat, reserve_in: nat, reserve_out: nat) -> bool {
    ||| amount_in_with_fee(amount_in, fee) >= pow2_256()
    ||| numerator(amount_in, fee, reserve_out) >= pow2_256()
    ||| reserve_in * (FEE_DENOMINATOR as nat) >= pow2_256()
    ||| denominator(amount_in, fee, reserve_in) >= pow2_256()
}

/// What a constant-product pool pays out for `amount_in`:
/// `floor(amount_in * fee * reserve_out / (reserve_in * 10000 + amount_in * fee))`,
/// or the reason why there is no such amount.
pub open spec fn quote(amount_in: nat, fee: nat, reserve_in: nat, reserve_out: nat) -> Result<
    nat,
    SwapError,
> {
    let out = numerator(amount_in, fee, reserve_out) / denominator(amount_in, fee, reserve_in);
    if overflows(amount_in, fee, reserve_in, reserve_out) {
        Err(SwapError::Overflow)
    } else if denominator(amount_in, fee, reserve_in) == 0 {
        Err(SwapError::ZeroReserve)
    } else if out > reserve_out {
        Err(SwapError::ReserveExceeded)
    } else if out == 0 {
        Err(SwapError::ZeroOutput)
    } else {
        Ok(out)
    }
}

/// The reserve of the token that is paid in.
pub open spec fn reserve_in(tok_in: Address, data: PoolData, state: PoolState) -> U256 {
    if tok_in@ == data.tok0@ {
        state.reserve0
    } else {
        state.reserve1
    }
}

/// The reserve of the token that is paid out.
pub open spec fn reserve_out(tok_in: Address, data: PoolData, state: PoolState) -> U256 {
    if tok_in@ == data.tok0@ {
        state.reserve1
    } else {
        state.reserve0
    }
}

/// An amount or an error, the amount as a number.
pub open spec fn amount_view(r: Result<U256, SwapError>) -> Result<nat, SwapError> {
    match r {
        Ok(v) => Ok(v@),
        Err(e) => Err(e),
    }
}

/// The amount of the other token that the pool pays for `amount_in` of `tok_in`.
///
/// `tok_in` is taken to be the pool's second token unless it is the first.
pub fn calc_amount_out(amount_in: U256, tok_in: Address, data: PoolData, state: PoolState) -> (r:
    Result<U256, SwapError>)
    ensures
        amount_view(r) == quote(
            amount_in@,
            data.fee@,
            reserve_in(tok_in, data, state)@,
            reserve_out(tok_in, data, state)@,
        ),
{
    let (reserve_in, reserve_out) = if tok_in == data.tok0 {
        (state.reserve0, state.reserve1)
    } else {
        (state.reserve1, state.reserve0)
    };
    let amount_in_with_fee = match checked_mul(amount_in, data.fee) {
        Some(v) => v,
        None => { return Err(SwapError::Overflow); },
    };
    let numerator = match checked_mul(amount_in_with_fee, reserve_out) {
        Some(v) => v,
        None => { return Err(SwapError::Overflow); },
    };
    let denominator = match checked_mul(reserve_in, U256::from_u64(FEE_DENOMINATOR)) {
        Some(v) => v,
        None => { return Err(SwapError::Overflow); },
    };
    let denominator = match checked_add(denominator, amount_in_with_fee) {
        Some(v) => v,
        None => { return Err(SwapError::Overflow); },
    };
    let out_amount = match checked_div(numerator, denominator) {
        Some(v) => v,
        None => { return Err(SwapError::ZeroReserve); },
    };
    if out_amount.gt(&reserve_out) {
        Err(SwapError::ReserveExceeded)
    } else if out_amount.is_zero() {
        Err(SwapError::ZeroOutput)
    } else {
        Ok(out_amount)
    }
}

/// The formula never pays out more than the pool holds: the quotient is at most
/// `reserve_out`, whatever the inputs.
pub proof fn lemma_output_within_reserve(amount_in: nat, fee: nat, reserve_in: nat, reserve_out: nat)
    ensures
        denominator(amount_in, fee, reserve_in) != 0 ==> numerator(amount_in, fee, reserve_out)
            / denominator(amount_in, fee, reserve_in) <= reserve_out,
        quote(amount_in, fee, reserve_in, reserve_out) != Err::<nat, SwapError>(
            SwapError::ReserveExceeded,
        ),
{
    let w = amount_in_with_fee(amount_in, fee);
    let d = denominator(amount_in, fee, reserve_in);
    if d != 0 {
        if w == 0 {
            assert(numerator(amount_in, fee, reserve_out) == 0) by (nonlinear_arith)
                requires
                    w == 0,
                    numerator(amount_in, fee, reserve_out) == w * reserve_out,
            ;
        } else {
            // w * reserve_out / d <= w * reserve_out / w == reserve_out, as w <= d.
            lemma_div_is_ordered_by_denominator_nat(w * reserve_out, w, d);
            lemma_mul_is_commutative(w as int, reserve_out as int);
            lemma_div_multiples_vanish(reserve_out as int, w as int);
        }
    }
}

/// A larger divisor gives no larger quotient.
proof fn lemma_div_is_ordered_by_denominator_nat(x: nat, small: nat, large: nat)
    requires
        0 < small <= large,
    ensures
        x / large <= x / small,
{
    vstd::arithmetic::div_mod::lemma_div_is_ordered_by_denominator(
        x as int,
        small as int,
        large as int,
    );
}

/// A larger input buys no less: where the formula gives an amount for `amount_in` and for
/// a larger `more_in`, with the same fee and reserves, the second amount is at least the
/// first.
pub proof fn lemma_quote_monotonic(
    amount_in: nat,
    more_in: nat,
    fee: nat,
    reserve_in: nat,
    reserve_out: nat,
)
    requires
        amount_in <= more_in,
        quote(amount_in, fee, reserve_in, reserve_out) is Ok,
        quote(more_in, fee, reserve_in, reserve_out) is Ok,
    ensures
        quote(amount_in, fee, reserve_in, reserve_out)->Ok_0 <= quote(
            more_in,
            fee,
            reserve_in,
            reserve_out,
        )->Ok_0,
{
    let n1 = numerator(amount_in, fee, reserve_out);
    let d1 = denominator(amount_in, fee, reserve_in);
    let n2 = numerator(more_in, fee, reserve_out);
    let d2 = denominator(more_in, fee, reserve_in);
    let q = n1 / d1;
    let extra = ((more_in - amount_in) * fee) as nat;
    lemma_output_within_reserve(amount_in, fee, reserve_in, reserve_out);
    assert(q <= reserve_out);
    assert(extra == (more_in - amount_in) * fee && extra >= 0 && more_in * fee == amount_in * fee
        + (more_in - amount_in) * fee) by (nonlinear_arith)
        requires
            amount_in <= more_in,
            extra == ((more_in - amount_in) * fee) as nat,
    ;
    assert(d2 == d1 + extra);
    assert(n2 == n1 + extra * reserve_out) by (nonlinear_arith)
        requires
            n1 == (amount_in * fee) * reserve_out,
            n2 == (more_in * fee) * reserve_out,
            more_in * fee == amount_in * fee + extra,
    ;
    lemma_fundamental_div_mod(n1 as int, d1 as int);
    assert(q * d2 <= n2) by (nonlinear_arith)
        requires
            n1 == d1 * q + n1 % d1,
            n1 % d1 >= 0,
            d2 == d1 + extra,
            n2 == n1 + extra * reserve_out,
            q <= reserve_out,
            extra >= 0,
    ;
    // q * d2 <= n2 gives q <= n2 / d2.
    lemma_div_is_ordered((q * d2) as int, n2 as int, d2 as int);
    lemma_div_multiples_vanish(q as int, d2 as int);
    lemma_mul_is_commutative(q as int, d2 as int);
}

} // verus!
