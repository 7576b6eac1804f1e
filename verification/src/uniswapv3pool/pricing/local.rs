use crate::error::SwapError;
use crate::primitives::{checked_add, checked_sub, Address, U256};
use crate::uniswapv3pool::slot0::Slot0;
use crate::uniswapv3pool::swap_math::{
    compute_swap_step, max_signed_amount, max_signed_amount_value, step_or_error, swap_step,
    FEE_UNIT,
};
use crate::uniswapv3pool::tick_bitmap::{
    next_initialized_tick, next_initialized_tick_within_one_word,
};
use crate::uniswapv3pool::tick_math::{
    get_sqrt_ratio_at_tick, get_tick_at_sqrt_ratio, max_sqrt_ratio, min_sqrt_ratio,
    sqrt_ratio_at_tick, tick_at_sqrt_ratio, tick_or_error, MAX_TICK, MIN_TICK,
};
use crate::uniswapv3pool::{UniswapV3PoolData, UniswapV3PoolState};
use std::collections::HashMap;
use vstd::prelude::*;

verus! {

broadcast use vstd::std_specs::hash::group_hash_axioms;

/// What is recorded of an initialized tick.
#[derive(Clone, Copy, Debug)]
pub struct TickInfo {
    /// The liquidity of all positions that start or end at the tick.
    pub liquidity_gross: u128,
    /// The liquidity that comes into range where the price rises through the tick.
    pub liquidity_net: i128,
}

impl Default for TickInfo {
    fn default() -> (r: TickInfo)
        ensures
            r.liquidity_gross == 0,
            r.liquidity_net == 0,
    {
        TickInfo { liquidity_gross: 0, liquidity_net: 0 }
    }
}

/// Everything a pool records of a tick.
#[derive(Clone, Copy, Debug)]
pub struct Tick {
    pub liquidity_gross: u128,
    pub liquidity_net: i128,
    pub fee_growth_outside_0_x_128: U256,
    pub fee_growth_outside_1_x_128: U256,
    pub tick_cumulative_outside: U256,
    pub seconds_per_liquidity_outside_x_128: U256,
    pub seconds_outside: u32,
    pub initialized: bool,
}

/// The constants of a pool that a swap reads.
#[derive(Clone, Copy, Debug)]
pub struct PoolData {
    pub tok0: Address,
    pub tok1: Address,
    /// The fee, in hundredths of a basis point.
    pub fee: u32,
    pub tick_spacing: u32,
}

impl PoolData {
    /// The fee is at most the whole input, the spacing is positive, and the ticks of the
    /// bitmap words around any tick that has a price are 32-bit numbers.
    pub open spec fn wf(&self) -> bool {
        &&& self.fee <= FEE_UNIT
        &&& 1 <= self.tick_spacing
        &&& MAX_TICK + 256 * self.tick_spacing <= i32::MAX
    }

    /// Whether a swap can be simulated on a pool with these constants.
    pub fn is_valid(&self) -> (r: bool)
        ensures
            r == self.wf(),
    {
        self.fee <= FEE_UNIT && 1 <= self.tick_spacing && self.tick_spacing <= 8_385_142
    }
}

impl From<UniswapV3PoolData> for PoolData {
    fn from(val: UniswapV3PoolData) -> (r: PoolData) {
        PoolData { tok0: val.tok0, tok1: val.tok1, fee: val.fee, tick_spacing: val.tick_spacing }
    }
}

impl vstd::std_specs::convert::FromSpecImpl<UniswapV3PoolData> for PoolData {
    open spec fn obeys_from_spec() -> bool {
        true
    }

    open spec fn from_spec(val: UniswapV3PoolData) -> PoolData {
        PoolData { tok0: val.tok0, tok1: val.tok1, fee: val.fee, tick_spacing: val.tick_spacing }
    }
}

/// The state of a pool that a swap reads.
#[derive(Clone, Debug)]
pub struct PoolState {
    pub slot0: Slot0,
    /// The liquidity in range at the current price.
    pub liquidity: u128,
    /// Which ticks are initialized: one bit for each multiple of the spacing, 256 to a
    /// word.
    pub tick_bitmap: HashMap<i16, U256>,
    /// The initialized ticks.
    pub ticks: HashMap<i32, TickInfo>,
}

impl From<UniswapV3PoolState> for PoolState {
    fn from(val: UniswapV3PoolState) -> (r: PoolState) {
        PoolState {
            slot0: val.slot0,
            liquidity: val.liquidity,
            tick_bitmap: val.tick_bitmap,
            ticks: val.ticks,
        }
    }
}

impl vstd::std_specs::convert::FromSpecImpl<UniswapV3PoolState> for PoolState {
    open spec fn obeys_from_spec() -> bool {
        true
    }

    open spec fn from_spec(val: UniswapV3PoolState) -> PoolState {
        PoolState {
            slot0: val.slot0,
            liquidity: val.liquidity,
            tick_bitmap: val.tick_bitmap,
            ticks: val.ticks,
        }
    }
}

/// Where a swap stands between two steps.
#[derive(Clone, Copy, Debug)]
pub struct CurrentState {
    /// The input that is still to be traded.
    pub amount_specified_remaining: U256,
    /// The output paid so far.
    pub amount_calculated: U256,
    /// The price, as a Q64.96 square root.
    pub sqrt_price_x_96: U256,
    pub tick: i32,
    /// The liquidity in range at the price.
    pub liquidity: u128,
}

/// The numbers of a `CurrentState`.
pub struct SwapView {
    pub remaining: nat,
    pub calculated: nat,
    pub sqrt_price: nat,
    pub tick: int,
    pub liquidity: nat,
}

impl View for CurrentState {
    type V = SwapView;

    open spec fn view(&self) -> SwapView {
        SwapView {
            remaining: self.amount_specified_remaining@,
            calculated: self.amount_calculated@,
            sqrt_price: self.sqrt_price_x_96@,
            tick: self.tick as int,
            liquidity: self.liquidity as nat,
        }
    }
}

/// What one step of a swap works with.
#[derive(Clone, Copy, Debug)]
pub struct StepComputations {
    /// The price at which the step starts.
    pub sqrt_price_start_x_96: U256,
    /// The tick towards which the step runs.
    pub tick_next: i32,
    /// Whether that tick is initialized.
    pub initialized: bool,
    /// The price at that tick.
    pub sqrt_price_next_x96: U256,
    pub amount_in: U256,
    pub amount_out: U256,
    pub fee_amount: U256,
}

/// The numbers of a `StepComputations`.
pub struct StepView {
    pub sqrt_price_start: nat,
    pub tick_next: int,
    pub initialized: bool,
    pub sqrt_price_next: nat,
    pub amount_in: nat,
    pub amount_out: nat,
    pub fee_amount: nat,
}

impl View for StepComputations {
    type V = StepView;

    open spec fn view(&self) -> StepView {
        StepView {
            sqrt_price_start: self.sqrt_price_start_x_96@,
            tick_next: self.tick_next as int,
            initialized: self.initialized,
            sqrt_price_next: self.sqrt_price_next_x96@,
            amount_in: self.amount_in@,
            amount_out: self.amount_out@,
            fee_amount: self.fee_amount@,
        }
    }
}

impl Default for StepComputations {
    fn default() -> (r: StepComputations)
        ensures
            r.sqrt_price_start_x_96@ == 0,
            r.tick_next == 0,
            !r.initialized,
            r.sqrt_price_next_x96@ == 0,
            r.amount_in@ == 0,
            r.amount_out@ == 0,
            r.fee_amount@ == 0,
    {
        StepComputations {
            sqrt_price_start_x_96: U256::zero(),
            tick_next: 0,
            initialized: false,
            sqrt_price_next_x96: U256::zero(),
            amount_in: U256::zero(),
            amount_out: U256::zero(),
            fee_amount: U256::zero(),
        }
    }
}

/// The price that a swap in the given direction stops at, whatever is left of the input:
/// one above the lowest price where token 0 is paid in, one below the highest where
/// token 1 is.
pub open spec fn spec_price_limit(zero_for_one: bool) -> nat {
    if zero_for_one {
        min_sqrt_ratio() + 1
    } else {
        (max_sqrt_ratio() - 1) as nat
    }
}

/// The price that a swap in the given direction stops at.
pub fn price_limit(zero_for_one: bool) -> (r: U256)
    ensures
        r@ == spec_price_limit(zero_for_one),
{
    if zero_for_one {
        U256::from_limbs([4295128740, 0, 0, 0])
    } else {
        U256::from_limbs([6743328256752651557, 17280870778742802505, 4294805859, 0])
    }
}

/// The tick brought into the range of ticks that have a price.
pub open spec fn spec_clamp_tick(tick: int) -> int {
    if tick < MIN_TICK {
        MIN_TICK as int
    } else if tick > MAX_TICK {
        MAX_TICK as int
    } else {
        tick
    }
}

/// The nearest tick that has a price.
pub fn clamp_tick(tick: i32) -> (r: i32)
    ensures
        r == spec_clamp_tick(tick as int),
{
    if tick < MIN_TICK {
        MIN_TICK
    } else if tick > MAX_TICK {
        MAX_TICK
    } else {
        tick
    }
}

/// The price at which a step ends at the latest: that of the next tick, or the price
/// limit where that comes first in the direction of the swap.
pub open spec fn spec_step_target(zero_for_one: bool, tick_price: nat, limit: nat) -> nat {
    if zero_for_one {
        if tick_price < limit {
            limit
        } else {
            tick_price
        }
    } else if tick_price > limit {
        limit
    } else {
        tick_price
    }
}

/// The price at which a step towards a tick of price `tick_price` ends at the latest.
pub fn step_target(zero_for_one: bool, tick_price: U256, limit: U256) -> (r: U256)
    ensures
        r@ == spec_step_target(zero_for_one, tick_price@, limit@),
{
    if zero_for_one {
        if tick_price.lt(&limit) {
            limit
        } else {
            tick_price
        }
    } else if tick_price.gt(&limit) {
        limit
    } else {
        tick_price
    }
}

/// What is left of the input and what has been paid after a step that traded
/// `amount_in` for `amount_out` and kept `fee_amount`, or `Overflow` where the step took
/// more than was left or the output no longer fits a signed amount.
pub open spec fn spec_settle(
    remaining: nat,
    calculated: nat,
    amount_in: nat,
    amount_out: nat,
    fee_amount: nat,
) -> Result<(nat, nat), SwapError> {
    let spent = amount_in + fee_amount;
    let paid = calculated + amount_out;
    if spent > remaining || paid > max_signed_amount() {
        Err(SwapError::Overflow)
    } else {
        Ok(((remaining - spent) as nat, paid))
    }
}

/// A pair of amounts or an error, the amounts as numbers.
pub open spec fn amounts_view(r: Result<(U256, U256), SwapError>) -> Result<
    (nat, nat),
    SwapError,
> {
    match r {
        Ok(amounts) => Ok((amounts.0@, amounts.1@)),
        Err(e) => Err(e),
    }
}

/// Books a step: takes what it traded and its fee from the input that is left, and adds
/// what it paid to the output. Returns the input left and the output paid.
pub fn settle_step(remaining: U256, calculated: U256, step: &StepComputations) -> (r: Result<
    (U256, U256),
    SwapError,
>)
    ensures
        amounts_view(r) == spec_settle(
            remaining@,
            calculated@,
            step.amount_in@,
            step.amount_out@,
            step.fee_amount@,
        ),
        r is Ok ==> r->Ok_0.0@ <= remaining@ && r->Ok_0.1@ <= max_signed_amount(),
{
    let spent = match checked_add(step.amount_in, step.fee_amount) {
        Some(v) => v,
        None => { return Err(SwapError::Overflow); },
    };
    let left = match checked_sub(remaining, spent) {
        Some(v) => v,
        None => { return Err(SwapError::Overflow); },
    };
    let paid = match checked_add(calculated, step.amount_out) {
        Some(v) => v,
        None => { return Err(SwapError::Overflow); },
    };
    if paid.gt(&max_signed_amount_value()) {
        return Err(SwapError::Overflow);
    }
    Ok((left, paid))
}

/// The liquidity in range after the price has crossed a tick whose net liquidity is
/// `liquidity_net`: that much more where the price rose through the tick, that much less
/// where it fell. `LiquidityUnderflow` where less than nothing would be left, `Overflow`
/// where the sum needs more than 128 bits.
pub open spec fn spec_cross_tick(liquidity: nat, liquidity_net: int, zero_for_one: bool) -> Result<
    nat,
    SwapError,
> {
    let after = if zero_for_one {
        liquidity - liquidity_net
    } else {
        liquidity + liquidity_net
    };
    if after < 0 {
        Err(SwapError::LiquidityUnderflow)
    } else if after > u128::MAX {
        Err(SwapError::Overflow)
    } else {
        Ok(after as nat)
    }
}

/// A liquidity or an error, the liquidity as a number.
pub open spec fn liquidity_view(r: Result<u128, SwapError>) -> Result<nat, SwapError> {
    match r {
        Ok(liquidity) => Ok(liquidity as nat),
        Err(e) => Err(e),
    }
}

/// The liquidity in range after the price has crossed a tick.
pub fn cross_tick(liquidity: u128, liquidity_net: i128, zero_for_one: bool) -> (r: Result<
    u128,
    SwapError,
>)
    ensures
        liquidity_view(r) == spec_cross_tick(liquidity as nat, liquidity_net as int, zero_for_one),
{
    let magnitude: u128 = if liquidity_net >= 0 {
        liquidity_net as u128
    } else if liquidity_net == i128::MIN {
        0x8000_0000_0000_0000_0000_0000_0000_0000u128
    } else {
        (-liquidity_net) as u128
    };
    let leaves: bool = if zero_for_one {
        liquidity_net > 0
    } else {
        liquidity_net < 0
    };
    if leaves {
        if liquidity < magnitude {
            Err(SwapError::LiquidityUnderflow)
        } else {
            Ok(liquidity - magnitude)
        }
    } else if magnitude > u128::MAX - liquidity {
        Err(SwapError::Overflow)
    } else {
        Ok(liquidity + magnitude)
    }
}

/// The net liquidity recorded for `tick`: zero where the tick is not among the
/// initialized ones.
pub open spec fn liquidity_net_at(ticks: Map<i32, TickInfo>, tick: int) -> int {
    if ticks.contains_key(tick as i32) {
        ticks[tick as i32].liquidity_net as int
    } else {
        0
    }
}

/// The net liquidity recorded for `tick`.
pub fn liquidity_net_of(ticks: &HashMap<i32, TickInfo>, tick: i32) -> (r: i128)
    ensures
        r == liquidity_net_at(ticks@, tick as int),
{
    match ticks.get(&tick) {
        Some(info) => info.liquidity_net,
        None => 0,
    }
}

/// The ticks at which a swap can stand between two steps: those that have a price, and
/// the one below them, where a swap stands after it has crossed the lowest.
pub open spec fn tick_in_range(tick: int) -> bool {
    MIN_TICK - 1 <= tick <= MAX_TICK
}

/// Where a swap stands after `step`, which ended at `price`, and whether its tick is
/// still to be found from that price.
///
/// The step is booked first. Where it ended at the price of the tick it ran towards, the
/// tick is crossed: the swap stands past it (below it where the price falls), and an
/// initialized tick changes the liquidity by its net liquidity `liquidity_net`. Where the
/// step ended elsewhere and moved the price, the tick is the one of the new price, which
/// is yet to be found. Otherwise nothing but the amounts changes.
pub open spec fn spec_apply_step(
    before: SwapView,
    step: StepView,
    price: nat,
    liquidity_net: int,
    zero_for_one: bool,
) -> Result<(SwapView, bool), SwapError> {
    match spec_settle(
        before.remaining,
        before.calculated,
        step.amount_in,
        step.amount_out,
        step.fee_amount,
    ) {
        Err(e) => Err(e),
        Ok((remaining, calculated)) => {
            let moved = SwapView { remaining, calculated, sqrt_price: price, ..before };
            if price == step.sqrt_price_next {
                let tick = if zero_for_one {
                    step.tick_next - 1
                } else {
                    step.tick_next
                };
                if step.initialized {
                    match spec_cross_tick(before.liquidity, liquidity_net, zero_for_one) {
                        Ok(liquidity) => Ok((SwapView { tick, liquidity, ..moved }, false)),
                        Err(e) => Err(e),
                    }
                } else {
                    Ok((SwapView { tick, ..moved }, false))
                }
            } else {
                Ok((moved, price != step.sqrt_price_start))
            }
        },
    }
}

/// A state with a flag, or an error, the state as numbers.
pub open spec fn landing_view(r: Result<(CurrentState, bool), SwapError>) -> Result<
    (SwapView, bool),
    SwapError,
> {
    match r {
        Ok(landing) => Ok((landing.0@, landing.1)),
        Err(e) => Err(e),
    }
}

/// Books `step`, which ended at the price `sqrt_price_after`, and moves the swap to where
/// it stands after it. The flag says whether the tick is still to be found from the new
/// price: the state then holds the tick from before the step.
pub fn apply_step(
    current: &CurrentState,
    step: &StepComputations,
    sqrt_price_after: U256,
    liquidity_net: i128,
    zero_for_one: bool,
) -> (r: Result<(CurrentState, bool), SwapError>)
    requires
        step.tick_next > i32::MIN,
    ensures
        landing_view(r) == spec_apply_step(
            current@,
            step@,
            sqrt_price_after@,
            liquidity_net as int,
            zero_for_one,
        ),
        r is Ok ==> r->Ok_0.0.amount_specified_remaining@ <= current.amount_specified_remaining@,
        r is Ok ==> current.amount_calculated@ <= r->Ok_0.0.amount_calculated@
            <= max_signed_amount(),
{
    let (remaining, calculated) = match settle_step(
        current.amount_specified_remaining,
        current.amount_calculated,
        step,
    ) {
        Ok(amounts) => amounts,
        Err(e) => { return Err(e); },
    };
    let mut next = CurrentState {
        amount_specified_remaining: remaining,
        amount_calculated: calculated,
        sqrt_price_x_96: sqrt_price_after,
        tick: current.tick,
        liquidity: current.liquidity,
    };
    if sqrt_price_after == step.sqrt_price_next_x96 {
        if step.initialized {
            next.liquidity = match cross_tick(current.liquidity, liquidity_net, zero_for_one) {
                Ok(liquidity) => liquidity,
                Err(e) => { return Err(e); },
            };
        }
        next.tick = if zero_for_one {
            step.tick_next - 1
        } else {
            step.tick_next
        };
        Ok((next, false))
    } else {
        Ok((next, sqrt_price_after != step.sqrt_price_start_x_96))
    }
}

/// Where a swap stands once the tick of its price has been found, where that was still
/// to be done: `PriceOutOfRange` where the price has no tick.
pub open spec fn spec_place(landing: Result<(SwapView, bool), SwapError>) -> Result<
    SwapView,
    SwapError,
> {
    match landing {
        Err(e) => Err(e),
        Ok((at, false)) => Ok(at),
        Ok((at, true)) => match tick_or_error(tick_at_sqrt_ratio(at.sqrt_price)) {
            Ok(tick) => Ok(SwapView { tick, ..at }),
            Err(e) => Err(e),
        },
    }
}

/// The step that a swap takes from where it stands at `before`, before it is carried
/// out: towards the next initialized tick of the bitmap or the end of its word, but to no
/// tick without a price.
pub open spec fn spec_plan_step(
    data: PoolData,
    bitmap: Map<i16, U256>,
    zero_for_one: bool,
    before: SwapView,
) -> StepView {
    let found = next_initialized_tick(bitmap, before.tick, data.tick_spacing as int, zero_for_one);
    StepView {
        sqrt_price_start: before.sqrt_price,
        tick_next: spec_clamp_tick(found.0),
        initialized: found.1,
        sqrt_price_next: sqrt_ratio_at_tick(spec_clamp_tick(found.0)),
        amount_in: 0,
        amount_out: 0,
        fee_amount: 0,
    }
}

/// One step of a swap from where it stands at `before`: from its price towards that of
/// the planned tick, no further than the price limit.
pub open spec fn spec_swap_iteration(
    data: PoolData,
    bitmap: Map<i16, U256>,
    ticks: Map<i32, TickInfo>,
    zero_for_one: bool,
    before: SwapView,
) -> Result<SwapView, SwapError> {
    let plan = spec_plan_step(data, bitmap, zero_for_one, before);
    let target = spec_step_target(
        zero_for_one,
        plan.sqrt_price_next,
        spec_price_limit(zero_for_one),
    );
    match step_or_error(
        swap_step(
            before.sqrt_price,
            target,
            before.liquidity,
            before.remaining,
            data.fee as nat,
        ),
    ) {
        Err(e) => Err(e),
        Ok(swap) => spec_place(
            spec_apply_step(
                before,
                StepView {
                    amount_in: swap.amount_in,
                    amount_out: swap.amount_out,
                    fee_amount: swap.fee_amount,
                    ..plan
                },
                swap.sqrt_price_next,
                liquidity_net_at(ticks, plan.tick_next),
                zero_for_one,
            ),
        ),
    }
}

/// A state or an error, the state as numbers.
pub open spec fn state_view(r: Result<CurrentState, SwapError>) -> Result<SwapView, SwapError> {
    match r {
        Ok(state) => Ok(state@),
        Err(e) => Err(e),
    }
}

/// How a swap that stands at `at` ends, where it ends there: well where nothing is left
/// of the input, with `InsufficientLiquidity` where the price limit is reached first.
pub open spec fn spec_finished(zero_for_one: bool, at: SwapView) -> Option<
    Result<SwapView, SwapError>,
> {
    if at.remaining == 0 {
        Some(Ok(at))
    } else if at.sqrt_price == spec_price_limit(zero_for_one) {
        Some(Err(SwapError::InsufficientLiquidity))
    } else {
        None
    }
}

/// How many ticks a swap that stands at `tick` can still pass in its direction.
pub open spec fn ticks_ahead(zero_for_one: bool, tick: int) -> int {
    if zero_for_one {
        tick - (MIN_TICK - 1)
    } else {
        MAX_TICK - tick
    }
}

/// How a swap ends that stands at `at`: step by step until nothing is left of the input
/// or the price limit is reached.
///
/// A swap that is to go on must stand at a tick in range (`TickOutOfRange` otherwise)
/// that lies beyond the one before it in the direction of the swap
/// (`InsufficientLiquidity` otherwise: a swap that stays where it is will never use up
/// its input).
pub open spec fn spec_swap_from(
    data: PoolData,
    bitmap: Map<i16, U256>,
    ticks: Map<i32, TickInfo>,
    zero_for_one: bool,
    at: SwapView,
) -> Result<SwapView, SwapError>
    decreases ticks_ahead(zero_for_one, at.tick),
{
    match spec_finished(zero_for_one, at) {
        Some(end) => end,
        None => match spec_swap_iteration(data, bitmap, ticks, zero_for_one, at) {
            Err(e) => Err(e),
            Ok(next) => match spec_finished(zero_for_one, next) {
                Some(end) => end,
                None => if !tick_in_range(next.tick) {
                    Err(SwapError::TickOutOfRange)
                } else if ticks_ahead(zero_for_one, next.tick) >= ticks_ahead(
                    zero_for_one,
                    at.tick,
                ) {
                    Err(SwapError::InsufficientLiquidity)
                } else {
                    spec_swap_from(data, bitmap, ticks, zero_for_one, next)
                },
            },
        },
    }
}

/// Where a swap of `amount_in` starts on a pool in state `state`.
pub open spec fn spec_seed(amount_in: nat, state: PoolState) -> SwapView {
    SwapView {
        remaining: amount_in,
        calculated: 0,
        sqrt_price: state.slot0.sqrt_price_x96@,
        tick: state.slot0.tick as int,
        liquidity: state.liquidity as nat,
    }
}

/// How a swap of exactly `amount_in` of `tok_in` ends on the pool.
///
/// A swap of nothing ends where it starts. Otherwise the token must be one of the pool's
/// two (`UnknownToken`) and the pool's tick must have a price (`TickOutOfRange`); the
/// swap then runs in the direction that the token gives.
pub open spec fn spec_simulate(amount_in: nat, tok_in: Address, data: PoolData, state: PoolState)
    -> Result<SwapView, SwapError> {
    if amount_in == 0 {
        Ok(spec_seed(0, state))
    } else if tok_in@ != data.tok0@ && tok_in@ != data.tok1@ {
        Err(SwapError::UnknownToken)
    } else if !(MIN_TICK <= state.slot0.tick <= MAX_TICK) {
        Err(SwapError::TickOutOfRange)
    } else {
        spec_swap_from(
            data,
            state.tick_bitmap@,
            state.ticks@,
            tok_in@ == data.tok0@,
            spec_seed(amount_in, state),
        )
    }
}

/// What a swap of exactly `amount_in` of `tok_in` pays out.
pub open spec fn spec_amount_out(amount_in: nat, tok_in: Address, data: PoolData, state: PoolState)
    -> Result<nat, SwapError> {
    match spec_simulate(amount_in, tok_in, data, state) {
        Ok(end) => Ok(end.calculated),
        Err(e) => Err(e),
    }
}

/// One step of a swap that stands at `current`.
pub fn swap_iteration(
    data: &PoolData,
    state: &PoolState,
    zero_for_one: bool,
    current: &CurrentState,
) -> (r: Result<CurrentState, SwapError>)
    requires
        data.wf(),
        tick_in_range(current.tick as int),
        current.amount_specified_remaining@ <= max_signed_amount(),
    ensures
        state_view(r) == spec_swap_iteration(
            *data,
            state.tick_bitmap@,
            state.ticks@,
            zero_for_one,
            current@,
        ),
        r is Ok ==> r->Ok_0.amount_specified_remaining@ <= current.amount_specified_remaining@,
        r is Ok ==> current.amount_calculated@ <= r->Ok_0.amount_calculated@ <= max_signed_amount(),
{
    let found = match next_initialized_tick_within_one_word(
        &state.tick_bitmap,
        current.tick,
        data.tick_spacing as i32,
        zero_for_one,
    ) {
        Ok(found) => found,
        Err(e) => { return Err(e); },
    };
    let mut step = StepComputations {
        sqrt_price_start_x_96: current.sqrt_price_x_96,
        tick_next: clamp_tick(found.0),
        initialized: found.1,
        sqrt_price_next_x96: U256::zero(),
        amount_in: U256::zero(),
        amount_out: U256::zero(),
        fee_amount: U256::zero(),
    };
    step.sqrt_price_next_x96 = match get_sqrt_ratio_at_tick(step.tick_next) {
        Ok(price) => price,
        Err(e) => { return Err(e); },
    };
    let target = step_target(zero_for_one, step.sqrt_price_next_x96, price_limit(zero_for_one));
    let swap = match compute_swap_step(
        current.sqrt_price_x_96,
        target,
        current.liquidity,
        current.amount_specified_remaining,
        data.fee,
    ) {
        Ok(swap) => swap,
        Err(e) => { return Err(e); },
    };
    step.amount_in = swap.amount_in;
    step.amount_out = swap.amount_out;
    step.fee_amount = swap.fee_amount;
    let (mut next, displaced) = match apply_step(
        current,
        &step,
        swap.sqrt_price_next_x96,
        liquidity_net_of(&state.ticks, step.tick_next),
        zero_for_one,
    ) {
        Ok(landing) => landing,
        Err(e) => { return Err(e); },
    };
    if displaced {
        next.tick = match get_tick_at_sqrt_ratio(next.sqrt_price_x_96) {
            Ok(tick) => tick,
            Err(e) => { return Err(e); },
        };
    }
    Ok(next)
}

/// Simulates a swap of exactly `amount_in` of `tok_in` on the pool and returns where it
/// ends: with nothing left of the input, the output paid, and the price, tick and
/// liquidity that the pool would then have.
pub fn simulate_exact_input_swap(
    amount_in: U256,
    tok_in: Address,
    data: &PoolData,
    state: &PoolState,
) -> (r: Result<CurrentState, SwapError>)
    requires
        data.wf(),
        amount_in@ <= max_signed_amount(),
    ensures
        state_view(r) == spec_simulate(amount_in@, tok_in, *data, *state),
        r is Ok ==> r->Ok_0.amount_specified_remaining@ == 0,
        r is Ok ==> r->Ok_0.amount_calculated@ <= max_signed_amount(),
{
    let mut current = CurrentState {
        amount_specified_remaining: amount_in,
        amount_calculated: U256::zero(),
        sqrt_price_x_96: state.slot0.sqrt_price_x96,
        tick: state.slot0.tick,
        liquidity: state.liquidity,
    };
    if amount_in.is_zero() {
        return Ok(current);
    }
    let zero_for_one = tok_in == data.tok0;
    if !zero_for_one && tok_in != data.tok1 {
        return Err(SwapError::UnknownToken);
    }
    if current.tick < MIN_TICK || current.tick > MAX_TICK {
        return Err(SwapError::TickOutOfRange);
    }
    let limit = price_limit(zero_for_one);
    loop
        invariant
            data.wf(),
            limit@ == spec_price_limit(zero_for_one),
            tick_in_range(current.tick as int),
            current.amount_specified_remaining@ <= max_signed_amount(),
            current.amount_calculated@ <= max_signed_amount(),
            spec_swap_from(*data, state.tick_bitmap@, state.ticks@, zero_for_one, current@)
                == spec_simulate(amount_in@, tok_in, *data, *state),
        decreases ticks_ahead(zero_for_one, current.tick as int),
    {
        if current.amount_specified_remaining.is_zero() {
            return Ok(current);
        }
        if current.sqrt_price_x_96 == limit {
            return Err(SwapError::InsufficientLiquidity);
        }
        let next = match swap_iteration(data, state, zero_for_one, &current) {
            Ok(next) => next,
            Err(e) => { return Err(e); },
        };
        if next.amount_specified_remaining.is_zero() {
            return Ok(next);
        }
        if next.sqrt_price_x_96 == limit {
            return Err(SwapError::InsufficientLiquidity);
        }
        if next.tick < MIN_TICK - 1 || next.tick > MAX_TICK {
            return Err(SwapError::TickOutOfRange);
        }
        let stalled = if zero_for_one {
            next.tick >= current.tick
        } else {
            next.tick <= current.tick
        };
        if stalled {
            return Err(SwapError::InsufficientLiquidity);
        }
        current = next;
    }
}

/// An amount or an error, the amount as a number.
pub open spec fn amount_view(r: Result<U256, SwapError>) -> Result<nat, SwapError> {
    match r {
        Ok(v) => Ok(v@),
        Err(e) => Err(e),
    }
}

/// The amount of the other token that the pool pays for exactly `amount_in` of `tok_in`:
/// the output of the simulated swap. Nothing for nothing, whatever the token.
pub fn calc_amount_out(amount_in: U256, tok_in: Address, pool_data: PoolData, pool_state: PoolState)
    -> (r: Result<U256, SwapError>)
    requires
        pool_data.wf(),
        amount_in@ <= max_signed_amount(),
    ensures
        amount_view(r) == spec_amount_out(amount_in@, tok_in, pool_data, pool_state),
        amount_in@ == 0 ==> r is Ok && r->Ok_0@ == 0,
        r is Ok ==> r->Ok_0@ <= max_signed_amount(),
{
    match simulate_exact_input_swap(amount_in, tok_in, &pool_data, &pool_state) {
        Ok(end) => Ok(end.amount_calculated),
        Err(e) => Err(e),
    }
}

/// A swap that ends well has used up its input: there is no partial result.
pub proof fn lemma_swap_uses_all_input(
    data: PoolData,
    bitmap: Map<i16, U256>,
    ticks: Map<i32, TickInfo>,
    zero_for_one: bool,
    at: SwapView,
)
    ensures
        spec_swap_from(data, bitmap, ticks, zero_for_one, at) matches Ok(end) ==> end.remaining
            == 0,
    decreases ticks_ahead(zero_for_one, at.tick),
{
    if spec_finished(zero_for_one, at) is None {
        if let Ok(next) = spec_swap_iteration(data, bitmap, ticks, zero_for_one, at) {
            if spec_finished(zero_for_one, next) is None && tick_in_range(next.tick) && ticks_ahead(
                zero_for_one,
                next.tick,
            ) < ticks_ahead(zero_for_one, at.tick) {
                lemma_swap_uses_all_input(data, bitmap, ticks, zero_for_one, next);
            }
        }
    }
}

/// A swap of nothing pays nothing, on every pool and for every token.
pub proof fn lemma_nothing_for_nothing(tok_in: Address, data: PoolData, state: PoolState)
    ensures
        spec_amount_out(0, tok_in, data, state) == Ok::<nat, SwapError>(0),
{
}

/// The first step of a swap of `amount_in` of `tok_in`, as the fixed-point routine
/// answers it.
pub open spec fn spec_first_step(amount_in: nat, tok_in: Address, data: PoolData, state: PoolState)
    -> Option<(nat, nat, nat, nat)> {
    let zero_for_one = tok_in@ == data.tok0@;
    swap_step(
        state.slot0.sqrt_price_x96@,
        spec_step_target(
            zero_for_one,
            spec_first_tick_price(tok_in, data, state),
            spec_price_limit(zero_for_one),
        ),
        state.liquidity as nat,
        amount_in,
        data.fee as nat,
    )
}

/// The price of the tick towards which the first step of a swap of `tok_in` runs.
pub open spec fn spec_first_tick_price(tok_in: Address, data: PoolData, state: PoolState) -> nat {
    spec_plan_step(
        data,
        state.tick_bitmap@,
        tok_in@ == data.tok0@,
        spec_seed(0, state),
    ).sqrt_price_next
}

/// A swap that crosses no tick is a single step: where the pool does not stand at the
/// price limit, and the first step uses up the input and ends short of the next tick's
/// price, at a price that has a tick, the swap pays what that step pays.
pub proof fn lemma_swap_within_one_step(
    amount_in: nat,
    tok_in: Address,
    data: PoolData,
    state: PoolState,
)
    requires
        amount_in > 0,
        tok_in@ == data.tok0@ || tok_in@ == data.tok1@,
        MIN_TICK <= state.slot0.tick <= MAX_TICK,
        state.slot0.sqrt_price_x96@ != spec_price_limit(tok_in@ == data.tok0@),
        spec_first_step(amount_in, tok_in, data, state) matches Some(step) && {
            &&& step.1 + step.3 == amount_in
            &&& step.2 <= max_signed_amount()
            &&& step.0 != spec_first_tick_price(tok_in, data, state)
            &&& step.0 == state.slot0.sqrt_price_x96@ || tick_at_sqrt_ratio(step.0) is Some
        },
    ensures
        spec_amount_out(amount_in, tok_in, data, state) == Ok::<nat, SwapError>(
            spec_first_step(amount_in, tok_in, data, state)->Some_0.2,
        ),
{
}

} // verus!
