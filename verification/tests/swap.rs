use pools::error::SwapError;
use pools::primitives::{Address, U256};
use pools::types::pool::{Pool, PoolClass, PoolProtocol};
use pools::uniswapv3pool::pricing::local::{
    apply_step, calc_amount_out, clamp_tick, cross_tick, liquidity_net_of, price_limit,
    settle_step, simulate_exact_input_swap, step_target, swap_iteration, CurrentState, PoolData,
    PoolState, StepComputations, TickInfo,
};
use pools::uniswapv3pool::slot0::Slot0;
use pools::uniswapv3pool::swap_math::compute_swap_step;
use pools::uniswapv3pool::tick_math::get_sqrt_ratio_at_tick;
use pools::uniswapv3pool::tick_math::{MAX_TICK, MIN_TICK};
use pools::uniswapv3pool::{UniswapV3Pool, UniswapV3PoolData, UniswapV3PoolState};
use std::collections::HashMap;

fn dec(text: &str) -> U256 {
    let mut limbs = [0u64; 4];
    for digit in text.bytes() {
        let mut carry = (digit - b'0') as u128;
        for limb in limbs.iter_mut() {
            let v = (*limb as u128) * 10 + carry;
            *limb = v as u64;
            carry = v >> 64;
        }
        assert_eq!(carry, 0);
    }
    U256::from_limbs(limbs)
}

fn token(byte: u8) -> Address {
    Address::from_bytes([byte; 20])
}

const UNIT: u128 = 1_000_000_000_000_000_000;

fn data() -> PoolData {
    PoolData { tok0: token(1), tok1: token(2), fee: 3000, tick_spacing: 60 }
}

/// A pool at price 1 (tick 0) with the given liquidity and initialized ticks.
fn pool(liquidity: u128, ticks: &[(i32, i128)]) -> PoolState {
    pool_at("79228162514264337593543950336", 0, liquidity, ticks)
}

fn pool_at(price: &str, tick: i32, liquidity: u128, ticks: &[(i32, i128)]) -> PoolState {
    let mut tick_bitmap: HashMap<i16, U256> = HashMap::new();
    let mut infos: HashMap<i32, TickInfo> = HashMap::new();
    for (tick, net) in ticks {
        let unit = tick.div_euclid(60);
        let position = unit.div_euclid(256) as i16;
        let bit = unit.rem_euclid(256) as usize;
        let mut limbs = match tick_bitmap.get(&position) {
            Some(word) => word.limbs,
            None => [0u64; 4],
        };
        limbs[bit / 64] |= 1u64 << (bit % 64);
        tick_bitmap.insert(position, U256::from_limbs(limbs));
        infos.insert(*tick, TickInfo { liquidity_gross: net.unsigned_abs(), liquidity_net: *net });
    }
    let slot0 = Slot0 { tick, sqrt_price_x96: dec(price), unlocked: true, ..Slot0::default() };
    PoolState { slot0, liquidity, tick_bitmap, ticks: infos }
}

fn straddled() -> PoolState {
    pool(5 * UNIT, &[(60, -2 * (UNIT as i128)), (-60, 2 * (UNIT as i128))])
}

#[test]
fn swap_of_nothing_pays_nothing() {
    assert_eq!(calc_amount_out(U256::zero(), token(1), data(), straddled()), Ok(U256::zero()));
    assert_eq!(calc_amount_out(U256::zero(), token(2), data(), straddled()), Ok(U256::zero()));
    // for any token, and on a pool that could not be swapped on
    assert_eq!(calc_amount_out(U256::zero(), token(9), data(), straddled()), Ok(U256::zero()));
    let broken = pool_at("0", 1_000_000, 0, &[]);
    assert_eq!(calc_amount_out(U256::zero(), token(1), data(), broken), Ok(U256::zero()));
    let end = simulate_exact_input_swap(U256::zero(), token(9), &data(), &straddled()).unwrap();
    assert_eq!(end.amount_calculated, U256::zero());
    assert_eq!(end.amount_specified_remaining, U256::zero());
    assert_eq!(end.sqrt_price_x_96, dec("79228162514264337593543950336"));
    assert_eq!(end.tick, 0);
    assert_eq!(end.liquidity, 5 * UNIT);
}

#[test]
fn swap_rejects_a_token_that_is_not_of_the_pool() {
    assert_eq!(
        calc_amount_out(U256::from_u64(1000), token(9), data(), straddled()),
        Err(SwapError::UnknownToken)
    );
}

#[test]
fn swap_rejects_a_pool_whose_tick_has_no_price() {
    let high = pool_at("79228162514264337593543950336", MAX_TICK + 1, UNIT, &[]);
    assert_eq!(
        calc_amount_out(U256::from_u64(1000), token(1), data(), high),
        Err(SwapError::TickOutOfRange)
    );
    let low = pool_at("79228162514264337593543950336", MIN_TICK - 1, UNIT, &[]);
    assert_eq!(
        calc_amount_out(U256::from_u64(1000), token(2), data(), low),
        Err(SwapError::TickOutOfRange)
    );
}

#[test]
fn swap_within_one_tick_range_is_a_single_step() {
    let amount = dec("1000000000000000");
    let up = simulate_exact_input_swap(amount, token(2), &data(), &straddled()).unwrap();
    assert_eq!(up.amount_calculated, dec("996801237833176"));
    assert_eq!(up.amount_specified_remaining, U256::zero());
    assert_eq!(up.sqrt_price_x_96, dec("79243960609869681902460102999"));
    assert_eq!(up.tick, 3);
    assert_eq!(up.liquidity, 5 * UNIT);
    let down = simulate_exact_input_swap(amount, token(1), &data(), &straddled()).unwrap();
    assert_eq!(down.amount_calculated, dec("996801237833176"));
    assert_eq!(down.amount_specified_remaining, U256::zero());
    assert_eq!(down.sqrt_price_x_96, dec("79212367568171244247441010599"));
    assert_eq!(down.tick, -4);
    assert_eq!(down.liquidity, 5 * UNIT);
    assert_eq!(
        calc_amount_out(amount, token(2), data(), straddled()),
        Ok(dec("996801237833176"))
    );
}

#[test]
fn swap_without_crossing_is_the_step_and_the_constant_product() {
    // at price 1 the liquidity in range stands for reserves of that size of each token,
    // and the fee of 3000 is the constant-product fee of 9970 in 10000
    let reserves = pools::uniswapv2pool::pricing::PoolState {
        reserve0: U256::from_u128(5 * UNIT),
        reserve1: U256::from_u128(5 * UNIT),
    };
    let constants = pools::uniswapv2pool::pricing::PoolData {
        fee: U256::from_u64(9970),
        tok0: token(1),
        tok1: token(2),
    };
    let target = get_sqrt_ratio_at_tick(60).unwrap();
    for amount in ["1000000000000", "100000000000000", "1000000000000000", "10000000000000000"] {
        let swapped = calc_amount_out(dec(amount), token(2), data(), straddled()).unwrap();
        let step = compute_swap_step(
            dec("79228162514264337593543950336"),
            target,
            5 * UNIT,
            dec(amount),
            3000,
        )
        .unwrap();
        assert!(step.sqrt_price_next_x96.lt(&target));
        assert_eq!(swapped, step.amount_out);
        let product = pools::uniswapv2pool::pricing::local::calc_amount_out(
            dec(amount),
            token(2),
            constants,
            reserves,
        );
        assert_eq!(product, Ok(swapped));
    }
    assert_eq!(
        calc_amount_out(dec("10000000000000000"), token(2), data(), straddled()),
        Ok(dec("9950159382191909"))
    );
}

#[test]
fn swap_that_crosses_the_upper_tick() {
    let amount = dec("100000000000000000");
    let crossed = simulate_exact_input_swap(amount, token(2), &data(), &straddled()).unwrap();
    // the liquidity has changed once, by the net liquidity of the tick at 60
    assert_eq!(crossed.liquidity, 3 * UNIT);
    assert_eq!(crossed.amount_calculated, dec("96844595805924901"));
    assert_eq!(crossed.amount_specified_remaining, U256::zero());
    assert_eq!(crossed.sqrt_price_x_96, dec("81702492147199517299293116857"));
    assert_eq!(crossed.tick, 615);
    // with the liquidity unchanged the same input would have bought more
    let flat = simulate_exact_input_swap(amount, token(2), &data(), &pool(5 * UNIT, &[])).unwrap();
    assert_eq!(flat.liquidity, 5 * UNIT);
    assert_eq!(flat.amount_calculated, dec("97750848089103280"));
    assert_eq!(flat.tick, 394);
    assert!(crossed.amount_calculated.lt(&flat.amount_calculated));
}

#[test]
fn swap_that_crosses_the_lower_tick() {
    let amount = dec("100000000000000000");
    let crossed = simulate_exact_input_swap(amount, token(1), &data(), &straddled()).unwrap();
    assert_eq!(crossed.liquidity, 3 * UNIT);
    assert_eq!(crossed.amount_calculated, dec("96844595805924901"));
    assert_eq!(crossed.sqrt_price_x_96, dec("76828767035374188360483127394"));
    assert_eq!(crossed.tick, -616);
    let flat = simulate_exact_input_swap(amount, token(1), &data(), &pool(5 * UNIT, &[])).unwrap();
    assert_eq!(flat.amount_calculated, dec("97750848089103280"));
    assert_eq!(flat.sqrt_price_x_96, dec("77679238498602209535407916482"));
    assert_eq!(flat.tick, -395);
    assert!(crossed.amount_calculated.lt(&flat.amount_calculated));
}

#[test]
fn swap_output_grows_with_the_input_on_samples() {
    let mut last = U256::zero();
    for exponent in 10..18u32 {
        let amount = U256::from_u128(10u128.pow(exponent));
        let out = calc_amount_out(amount, token(2), data(), straddled()).unwrap();
        assert!(out.gt(&last));
        last = out;
    }
}

#[test]
fn swap_beyond_the_liquidity_fails() {
    let all = 5 * (UNIT as i128);
    let state = pool(5 * UNIT, &[(60, -all), (-60, all)]);
    let amount = dec("10000000000000000000");
    assert_eq!(
        calc_amount_out(amount, token(2), data(), state.clone()),
        Err(SwapError::InsufficientLiquidity)
    );
    assert_eq!(
        calc_amount_out(amount, token(1), data(), state.clone()),
        Err(SwapError::InsufficientLiquidity)
    );
    assert!(simulate_exact_input_swap(amount, token(1), &data(), &state).is_err());
}

#[test]
fn swap_on_an_empty_pool_fails() {
    let state = pool(0, &[]);
    assert_eq!(
        calc_amount_out(U256::from_u64(1), token(1), data(), state.clone()),
        Err(SwapError::InsufficientLiquidity)
    );
    assert_eq!(
        calc_amount_out(U256::from_u64(1), token(2), data(), state),
        Err(SwapError::InsufficientLiquidity)
    );
}

#[test]
fn swap_at_the_price_limit_fails() {
    let low = pool_at("4295128740", MIN_TICK, UNIT, &[]);
    assert_eq!(
        calc_amount_out(U256::from_u64(5), token(1), data(), low),
        Err(SwapError::InsufficientLiquidity)
    );
    let high = pool_at("1461446703485210103287273052203988822378723970341", MAX_TICK - 1, UNIT, &[]);
    assert_eq!(
        calc_amount_out(U256::from_u64(5), token(2), data(), high),
        Err(SwapError::InsufficientLiquidity)
    );
}

#[test]
fn swap_fails_where_a_tick_takes_more_liquidity_than_there_is() {
    let state = pool(5 * UNIT, &[(60, -6 * (UNIT as i128))]);
    assert_eq!(
        calc_amount_out(dec("100000000000000000"), token(2), data(), state),
        Err(SwapError::LiquidityUnderflow)
    );
}

#[test]
fn swap_fails_where_the_price_leaves_the_range() {
    let state = pool_at("4295128000", MIN_TICK, 1_000_000_000_000_000_000_000_000_000, &[]);
    assert_eq!(
        calc_amount_out(U256::from_u64(5), token(1), data(), state),
        Err(SwapError::PriceOutOfRange)
    );
}

#[test]
fn swap_fails_where_the_step_cannot_be_computed() {
    let state = pool_at("0", 0, UNIT, &[]);
    assert_eq!(
        calc_amount_out(U256::from_u64(1000), token(1), data(), state),
        Err(SwapError::Overflow)
    );
}

#[test]
fn one_iteration_of_a_swap() {
    let state = straddled();
    let start = CurrentState {
        amount_specified_remaining: dec("100000000000000000"),
        amount_calculated: U256::zero(),
        sqrt_price_x_96: state.slot0.sqrt_price_x96,
        tick: 0,
        liquidity: state.liquidity,
    };
    let next = swap_iteration(&data(), &state, false, &start).unwrap();
    assert_eq!(next.amount_specified_remaining, dec("84933028772608195"));
    assert_eq!(next.amount_calculated, dec("14976774779553904"));
    assert_eq!(next.sqrt_price_x_96, dec("79466191966197645195421774833"));
    assert_eq!(next.tick, 60);
    assert_eq!(next.liquidity, 3 * UNIT);
    // towards lower prices the tick at the price itself is looked at first: the step
    // trades nothing and leaves the swap below it
    let next = swap_iteration(&data(), &state, true, &start).unwrap();
    assert_eq!(next.amount_specified_remaining, dec("100000000000000000"));
    assert_eq!(next.amount_calculated, U256::zero());
    assert_eq!(next.sqrt_price_x_96, state.slot0.sqrt_price_x96);
    assert_eq!(next.tick, -1);
    assert_eq!(next.liquidity, 5 * UNIT);
    let next = swap_iteration(&data(), &state, true, &next).unwrap();
    assert_eq!(next.amount_specified_remaining, dec("84933028772608195"));
    assert_eq!(next.amount_calculated, dec("14976774779553904"));
    assert_eq!(next.sqrt_price_x_96, dec("78990846045029531151608375686"));
    assert_eq!(next.tick, -61);
    assert_eq!(next.liquidity, 3 * UNIT);
}

#[test]
fn price_limits() {
    assert_eq!(price_limit(true), dec("4295128740"));
    assert_eq!(
        price_limit(false),
        dec("1461446703485210103287273052203988822378723970341")
    );
}

#[test]
fn ticks_are_clamped_to_those_that_have_a_price() {
    assert_eq!(clamp_tick(0), 0);
    assert_eq!(clamp_tick(MIN_TICK), MIN_TICK);
    assert_eq!(clamp_tick(MIN_TICK - 1), MIN_TICK);
    assert_eq!(clamp_tick(-890880), MIN_TICK);
    assert_eq!(clamp_tick(MAX_TICK), MAX_TICK);
    assert_eq!(clamp_tick(MAX_TICK + 1), MAX_TICK);
    assert_eq!(clamp_tick(i32::MAX), MAX_TICK);
    assert_eq!(clamp_tick(i32::MIN), MIN_TICK);
}

#[test]
fn step_target_is_the_nearer_of_tick_price_and_limit() {
    let low = U256::from_u64(100);
    let high = U256::from_u64(200);
    assert_eq!(step_target(true, low, high), high);
    assert_eq!(step_target(true, high, low), high);
    assert_eq!(step_target(true, low, low), low);
    assert_eq!(step_target(false, low, high), low);
    assert_eq!(step_target(false, high, low), low);
    assert_eq!(step_target(false, high, high), high);
}

fn step(amount_in: u64, amount_out: u64, fee_amount: u64) -> StepComputations {
    StepComputations {
        amount_in: U256::from_u64(amount_in),
        amount_out: U256::from_u64(amount_out),
        fee_amount: U256::from_u64(fee_amount),
        ..StepComputations::default()
    }
}

#[test]
fn settling_a_step() {
    let settled = settle_step(U256::from_u64(1000), U256::from_u64(50), &step(600, 70, 30));
    assert_eq!(settled, Ok((U256::from_u64(370), U256::from_u64(120))));
    let settled = settle_step(U256::from_u64(630), U256::zero(), &step(600, 0, 30));
    assert_eq!(settled, Ok((U256::zero(), U256::zero())));
}

#[test]
fn settling_a_step_that_takes_too_much() {
    let settled = settle_step(U256::from_u64(629), U256::zero(), &step(600, 70, 30));
    assert_eq!(settled, Err(SwapError::Overflow));
    let huge = StepComputations {
        amount_in: U256::from_limbs([u64::MAX; 4]),
        fee_amount: U256::one(),
        ..StepComputations::default()
    };
    assert_eq!(settle_step(U256::from_u64(629), U256::zero(), &huge), Err(SwapError::Overflow));
}

#[test]
fn settling_a_step_that_pays_more_than_a_signed_amount_holds() {
    let most = dec("57896044618658097711785492504343953926634992332820282019728792003956564819967");
    let paid = settle_step(U256::from_u64(10), most, &step(5, 0, 5));
    assert_eq!(paid, Ok((U256::zero(), most)));
    let paid = settle_step(U256::from_u64(10), most, &step(5, 1, 5));
    assert_eq!(paid, Err(SwapError::Overflow));
    let paid = settle_step(U256::from_u64(10), U256::from_limbs([u64::MAX; 4]), &step(5, 1, 5));
    assert_eq!(paid, Err(SwapError::Overflow));
}

fn standing(remaining: u64, calculated: u64, price: u64, tick: i32, liquidity: u128) -> CurrentState {
    CurrentState {
        amount_specified_remaining: U256::from_u64(remaining),
        amount_calculated: U256::from_u64(calculated),
        sqrt_price_x_96: U256::from_u64(price),
        tick,
        liquidity,
    }
}

fn towards(tick_next: i32, initialized: bool, start: u64, tick_price: u64) -> StepComputations {
    StepComputations {
        sqrt_price_start_x_96: U256::from_u64(start),
        tick_next,
        initialized,
        sqrt_price_next_x96: U256::from_u64(tick_price),
        ..step(600, 70, 30)
    }
}

#[test]
fn step_that_ends_at_an_initialized_tick_crosses_it() {
    let before = standing(1000, 50, 5000, 7, 100);
    let up = towards(60, true, 5000, 6000);
    let (after, displaced) = apply_step(&before, &up, U256::from_u64(6000), -30, false).unwrap();
    assert!(!displaced);
    assert_eq!(after.amount_specified_remaining, U256::from_u64(370));
    assert_eq!(after.amount_calculated, U256::from_u64(120));
    assert_eq!(after.sqrt_price_x_96, U256::from_u64(6000));
    assert_eq!(after.tick, 60);
    assert_eq!(after.liquidity, 70);
    let down = towards(-60, true, 5000, 4000);
    let (after, displaced) = apply_step(&before, &down, U256::from_u64(4000), 30, true).unwrap();
    assert!(!displaced);
    assert_eq!(after.amount_specified_remaining, U256::from_u64(370));
    assert_eq!(after.amount_calculated, U256::from_u64(120));
    assert_eq!(after.sqrt_price_x_96, U256::from_u64(4000));
    assert_eq!(after.tick, -61);
    assert_eq!(after.liquidity, 70);
}

#[test]
fn step_that_ends_at_a_tick_that_is_not_initialized_passes_it() {
    let before = standing(1000, 50, 5000, 7, 100);
    let up = towards(15300, false, 5000, 6000);
    let (after, displaced) = apply_step(&before, &up, U256::from_u64(6000), -30, false).unwrap();
    assert!(!displaced);
    assert_eq!(after.tick, 15300);
    assert_eq!(after.liquidity, 100);
    let down = towards(-15360, false, 5000, 4000);
    let (after, displaced) = apply_step(&before, &down, U256::from_u64(4000), 30, true).unwrap();
    assert!(!displaced);
    assert_eq!(after.tick, -15361);
    assert_eq!(after.liquidity, 100);
    assert_eq!(after.sqrt_price_x_96, U256::from_u64(4000));
}

#[test]
fn step_that_ends_between_ticks_leaves_the_tick_to_be_found() {
    let before = standing(630, 0, 5000, 7, 100);
    let up = towards(60, true, 5000, 6000);
    let (after, displaced) = apply_step(&before, &up, U256::from_u64(5500), -30, false).unwrap();
    assert!(displaced);
    assert_eq!(after.amount_specified_remaining, U256::zero());
    assert_eq!(after.amount_calculated, U256::from_u64(70));
    assert_eq!(after.sqrt_price_x_96, U256::from_u64(5500));
    assert_eq!(after.tick, 7);
    assert_eq!(after.liquidity, 100);
}

#[test]
fn step_that_does_not_move_the_price_keeps_the_tick() {
    let before = standing(630, 0, 5000, 7, 100);
    let up = towards(60, true, 5000, 6000);
    let (after, displaced) = apply_step(&before, &up, U256::from_u64(5000), -30, false).unwrap();
    assert!(!displaced);
    assert_eq!(after.amount_specified_remaining, U256::zero());
    assert_eq!(after.sqrt_price_x_96, U256::from_u64(5000));
    assert_eq!(after.tick, 7);
    assert_eq!(after.liquidity, 100);
    // a step of no length to the tick at the price itself crosses that tick
    let at = towards(0, false, 5000, 5000);
    let (after, displaced) = apply_step(&before, &at, U256::from_u64(5000), 0, true).unwrap();
    assert!(!displaced);
    assert_eq!(after.tick, -1);
}

#[test]
fn step_that_cannot_be_booked_or_crossed_fails() {
    let before = standing(629, 0, 5000, 7, 100);
    let up = towards(60, true, 5000, 6000);
    assert!(matches!(
        apply_step(&before, &up, U256::from_u64(6000), -30, false),
        Err(SwapError::Overflow)
    ));
    let before = standing(630, 0, 5000, 7, 100);
    assert!(matches!(
        apply_step(&before, &up, U256::from_u64(6000), -101, false),
        Err(SwapError::LiquidityUnderflow)
    ));
    assert!(matches!(
        apply_step(&before, &up, U256::from_u64(6000), 101, true),
        Err(SwapError::LiquidityUnderflow)
    ));
    // a tick that is not initialized takes nothing
    let plain = towards(60, false, 5000, 6000);
    assert!(apply_step(&before, &plain, U256::from_u64(6000), -101, false).is_ok());
}

#[test]
fn crossing_a_tick() {
    assert_eq!(cross_tick(100, 30, false), Ok(130));
    assert_eq!(cross_tick(100, 30, true), Ok(70));
    assert_eq!(cross_tick(100, -30, false), Ok(70));
    assert_eq!(cross_tick(100, -30, true), Ok(130));
    assert_eq!(cross_tick(100, 0, true), Ok(100));
    assert_eq!(cross_tick(100, -100, false), Ok(0));
    assert_eq!(cross_tick(100, 100, true), Ok(0));
}

#[test]
fn crossing_a_tick_that_takes_too_much() {
    assert_eq!(cross_tick(100, -101, false), Err(SwapError::LiquidityUnderflow));
    assert_eq!(cross_tick(100, 101, true), Err(SwapError::LiquidityUnderflow));
    assert_eq!(cross_tick(0, i128::MIN, false), Err(SwapError::LiquidityUnderflow));
    assert_eq!(cross_tick(0, i128::MAX, true), Err(SwapError::LiquidityUnderflow));
}

#[test]
fn crossing_a_tick_at_the_limits_of_the_liquidity() {
    assert_eq!(cross_tick(u128::MAX, 1, false), Err(SwapError::Overflow));
    assert_eq!(cross_tick(u128::MAX, -1, true), Err(SwapError::Overflow));
    assert_eq!(cross_tick(u128::MAX - 1, 1, false), Ok(u128::MAX));
    assert_eq!(cross_tick(1 << 127, i128::MIN, false), Ok(0));
    assert_eq!(cross_tick(0, i128::MIN, true), Ok(1 << 127));
    assert_eq!(cross_tick(1 << 127, i128::MIN, true), Err(SwapError::Overflow));
    assert_eq!(cross_tick((1 << 127) - 1, i128::MIN, true), Ok(u128::MAX));
}

#[test]
fn net_liquidity_of_a_tick() {
    let state = straddled();
    assert_eq!(liquidity_net_of(&state.ticks, 60), -2 * (UNIT as i128));
    assert_eq!(liquidity_net_of(&state.ticks, -60), 2 * (UNIT as i128));
    assert_eq!(liquidity_net_of(&state.ticks, 0), 0);
    assert_eq!(liquidity_net_of(&state.ticks, 120), 0);
}

#[test]
fn pool_constants_that_a_swap_accepts() {
    assert!(data().is_valid());
    assert!(PoolData { fee: 1_000_000, tick_spacing: 1, ..data() }.is_valid());
    assert!(!PoolData { fee: 1_000_001, ..data() }.is_valid());
    assert!(!PoolData { tick_spacing: 0, ..data() }.is_valid());
    assert!(PoolData { tick_spacing: 8_385_142, ..data() }.is_valid());
    assert!(!PoolData { tick_spacing: 8_385_143, ..data() }.is_valid());
}

#[test]
fn defaults_are_empty() {
    let info = TickInfo::default();
    assert_eq!(info.liquidity_gross, 0);
    assert_eq!(info.liquidity_net, 0);
    let step = StepComputations::default();
    assert_eq!(step.tick_next, 0);
    assert!(!step.initialized);
    assert_eq!(step.amount_in, U256::zero());
    let slot0 = Slot0::default();
    assert_eq!(slot0.tick, 0);
    assert_eq!(slot0.sqrt_price_x96, U256::zero());
    assert!(!slot0.unlocked);
    let state = UniswapV3PoolState::default();
    assert_eq!(state.liquidity, 0);
    assert!(state.tick_bitmap.is_empty());
    assert!(state.ticks.is_empty());
    let data = UniswapV3PoolData::default();
    assert_eq!(data.fee, 0);
    assert_eq!(data.tick_spacing, 0);
}

#[test]
fn concentrated_liquidity_pool_quotes_through_the_pool_interface() {
    let mut pool = UniswapV3Pool::new(token(7));
    assert_eq!(pool.get_protocol(), PoolProtocol::UniswapV3Like);
    assert_eq!(pool.get_class(), PoolClass::UniswapV2);
    assert_eq!(pool.get_address(), token(7));
    assert_eq!(pool.get_fee(), 0);
    assert!(!pool.can_flash_swap());
    let snapshot = straddled();
    pool.data = UniswapV3PoolData {
        factory: token(3),
        tok0: token(1),
        tok1: token(2),
        fee: 3000,
        tick_spacing: UniswapV3Pool::tick_spacing(3000),
    };
    pool.state = UniswapV3PoolState {
        slot0: snapshot.slot0,
        liquidity: snapshot.liquidity,
        tick_bitmap: snapshot.tick_bitmap,
        ticks: snapshot.ticks,
    };
    assert_eq!(pool.get_fee(), 3000);
    assert_eq!(pool.get_tokens(), vec![token(1), token(2)]);
    assert_eq!(pool.get_other_token(token(1)), token(2));
    assert_eq!(pool.get_other_token(token(2)), token(1));
    assert_eq!(pool.get_other_token(token(9)), token(1));
    assert_eq!(
        pool.calc_amount_out(dec("100000000000000000"), token(2)),
        Ok(dec("96844595805924901"))
    );
    let data = PoolData::from(pool.data);
    assert_eq!(data.tok0, token(1));
    assert_eq!(data.tok1, token(2));
    assert_eq!(data.fee, 3000);
    assert_eq!(data.tick_spacing, 60);
    let state = PoolState::from(pool.state.clone());
    assert_eq!(state.liquidity, 5 * UNIT);
    assert_eq!(state.slot0.tick, 0);
    assert_eq!(state.tick_bitmap.len(), 2);
    assert_eq!(state.ticks.len(), 2);
}
