pub mod pricing;
pub mod slot0;
pub mod swap_math;
pub mod tick_bitmap;
pub mod tick_math;

use crate::error::SwapError;
use crate::primitives::{Address, U256};
use crate::types::pool::{Pool, PoolClass, PoolProtocol};
use crate::uniswapv3pool::pricing::local::{
    amount_view, calc_amount_out, spec_amount_out, PoolData, PoolState, TickInfo,
};
use crate::uniswapv3pool::slot0::Slot0;
use crate::uniswapv3pool::swap_math::max_signed_amount;
use crate::uniswapv3pool::tick_bitmap::position;
use std::collections::HashMap;
use vstd::prelude::*;

verus! {

broadcast use vstd::std_specs::hash::group_hash_axioms;

/// What identifies a concentrated-liquidity pool.
#[derive(Clone, Copy, Debug)]
pub struct UniswapV3PoolMetadata {
    pub addr: Address,
    pub protocol: PoolProtocol,
}

/// What stays the same over a concentrated-liquidity pool's life.
#[derive(Clone, Copy, Debug)]
pub struct UniswapV3PoolData {
    pub factory: Address,
    pub tok0: Address,
    pub tok1: Address,
    /// The fee, in hundredths of a basis point.
    pub fee: u32,
    pub tick_spacing: u32,
}

/// A concentrated-liquidity pool at one block: its price, the liquidity in range there,
/// and the part of its ticks that was read.
#[derive(Clone, Debug)]
pub struct UniswapV3PoolState {
    pub slot0: Slot0,
    pub liquidity: u128,
    /// Which ticks are initialized: one bit for each multiple of the spacing, 256 to a
    /// word.
    pub tick_bitmap: HashMap<i16, U256>,
    /// The initialized ticks.
    pub ticks: HashMap<i32, TickInfo>,
}

impl Default for UniswapV3PoolMetadata {
    fn default() -> (r: UniswapV3PoolMetadata)
        ensures
            r.addr@ == Seq::new(20, |i: int| 0u8),
            r.protocol == PoolProtocol::Unknown,
    {
        let addr = Address::from_bytes([0u8;20]);
        assert(addr@ =~= Seq::new(20, |i: int| 0u8));
        UniswapV3PoolMetadata { addr, protocol: PoolProtocol::Unknown }
    }
}

impl Default for UniswapV3PoolData {
    fn default() -> (r: UniswapV3PoolData)
        ensures
            r.fee == 0,
            r.tick_spacing == 0,
    {
        UniswapV3PoolData {
            factory: Address::from_bytes([0u8;20]),
            tok0: Address::from_bytes([0u8;20]),
            tok1: Address::from_bytes([0u8;20]),
            fee: 0,
            tick_spacing: 0,
        }
    }
}

impl Default for UniswapV3PoolState {
    fn default() -> (r: UniswapV3PoolState)
        ensures
            r.liquidity == 0,
            r.slot0.tick == 0,
            r.slot0.sqrt_price_x96@ == 0,
            r.tick_bitmap@ == Map::<i16, U256>::empty(),
            r.ticks@ == Map::<i32, TickInfo>::empty(),
    {
        UniswapV3PoolState {
            slot0: Slot0::default(),
            liquidity: 0,
            tick_bitmap: HashMap::new(),
            ticks: HashMap::new(),
        }
    }
}

/// A concentrated-liquidity pool with what was read of it.
#[derive(Clone, Debug)]
pub struct UniswapV3Pool {
    pub metadata: UniswapV3PoolMetadata,
    pub data: UniswapV3PoolData,
    pub state: UniswapV3PoolState,
}

/// The tick spacing of the pools that charge `fee` hundredths of a basis point: zero for
/// a fee that no pool charges.
pub open spec fn spacing_of_fee(fee: u32) -> u32 {
    if fee == 10000 {
        200
    } else if fee == 3000 {
        60
    } else if fee == 500 {
        10
    } else if fee == 100 {
        1
    } else {
        0
    }
}

/// `a / b` rounded towards zero.
pub open spec fn quotient_towards_zero(a: int, b: int) -> int {
    if a >= 0 {
        a / b
    } else {
        -((-a) / b)
    }
}

/// The constants of the pool as a swap reads them.
pub open spec fn swap_data(data: UniswapV3PoolData) -> PoolData {
    PoolData { tok0: data.tok0, tok1: data.tok1, fee: data.fee, tick_spacing: data.tick_spacing }
}

impl UniswapV3Pool {
    /// A pool at `addr` of which nothing has been read yet.
    pub fn new(addr: Address) -> (r: UniswapV3Pool)
        ensures
            r.metadata.addr == addr,
            r.metadata.protocol == PoolProtocol::UniswapV3Like,
            r.data.fee == 0,
            r.data.tick_spacing == 0,
            r.state.liquidity == 0,
            r.state.tick_bitmap@ == Map::<i16, U256>::empty(),
            r.state.ticks@ == Map::<i32, TickInfo>::empty(),
    {
        UniswapV3Pool {
            metadata: UniswapV3PoolMetadata { addr, protocol: PoolProtocol::UniswapV3Like },
            data: UniswapV3PoolData::default(),
            state: UniswapV3PoolState::default(),
        }
    }

    /// The pool's token that is not `tok`: the first one where `tok` is neither.
    pub fn get_other_token(&self, tok: Address) -> (r: Address)
        ensures
            r == if tok@ == self.data.tok0@ {
                self.data.tok1
            } else {
                self.data.tok0
            },
    {
        if tok == self.data.tok0 {
            self.data.tok1
        } else {
            self.data.tok0
        }
    }

    pub fn tick_spacing(fee: u32) -> (r: u32)
        ensures
            r == spacing_of_fee(fee),
    {
        Self::get_price_step(fee)
    }

    pub fn get_price_step(fee: u32) -> (r: u32)
        ensures
            r == spacing_of_fee(fee),
    {
        match fee {
            10000 => 200,
            3000 => 60,
            500 => 10,
            100 => 1,
            _ => 0,
        }
    }

    /// The position of the bitmap word that holds the bit of `tick`, counted in units of
    /// `spacing` rounded towards zero.
    pub fn get_tick_bitmap_index(tick: i32, spacing: u32) -> (r: i16)
        requires
            1 <= spacing <= i32::MAX,
        ensures
            r == (quotient_towards_zero(tick as int, spacing as int) / 256) as i16,
    {
        let (word_pos, _bit_pos) = position(tick / (spacing as i32));
        word_pos
    }
}

impl Pool for UniswapV3Pool {
    fn get_class(&self) -> (r: PoolClass)
        ensures
            r == PoolClass::UniswapV2,
    {
        PoolClass::UniswapV2
    }

    fn get_protocol(&self) -> (r: PoolProtocol)
        ensures
            r == self.metadata.protocol,
    {
        self.metadata.protocol
    }

    fn get_address(&self) -> (r: Address)
        ensures
            r == self.metadata.addr,
    {
        self.metadata.addr
    }

    fn get_fee(&self) -> (r: u32)
        ensures
            r == self.data.fee,
    {
        self.data.fee
    }

    fn get_tokens(&self) -> (r: Vec<Address>)
        ensures
            r@ == seq![self.data.tok0, self.data.tok1],
    {
        vec![self.data.tok0, self.data.tok1]
    }

    open spec fn can_quote(&self, amount_in: U256) -> bool {
        swap_data(self.data).wf() && amount_in@ <= max_signed_amount()
    }

    fn calc_amount_out(&self, amount_in: U256, tok_in: Address) -> (r: Result<U256, SwapError>)
        ensures
            amount_view(r) == spec_amount_out(
                amount_in@,
                tok_in,
                swap_data(self.data),
                PoolState {
                    slot0: self.state.slot0,
                    liquidity: self.state.liquidity,
                    tick_bitmap: self.state.tick_bitmap,
                    ticks: self.state.ticks,
                },
            ),
    {
        let pool_state = PoolState {
            slot0: self.state.slot0,
            liquidity: self.state.liquidity,
            tick_bitmap: self.state.tick_bitmap.clone(),
            ticks: self.state.ticks.clone(),
        };
        calc_amount_out(amount_in, tok_in, PoolData::from(self.data), pool_state)
    }
}

/// An initialized tick as a pool reports it for a word of its bitmap.
#[derive(Clone, Copy, Debug)]
pub struct PopulatedTick {
    pub tick: i32,
    pub liquidity_net: i128,
    pub liquidity_gross: u128,
}

/// How many words of the bitmap are read below the word of the current tick.
pub const WORDS_BELOW: i16 = 4;

/// How many words of the bitmap are read above the word of the current tick.
pub const WORDS_ABOVE: i16 = 3;

/// What is recorded of a populated tick.
pub open spec fn info_of(populated: PopulatedTick) -> TickInfo {
    TickInfo { liquidity_gross: populated.liquidity_gross, liquidity_net: populated.liquidity_net }
}

/// The initialized ticks after those of `populated` have been recorded in their order: a
/// later entry for a tick replaces an earlier one.
pub open spec fn with_ticks(ticks: Map<i32, TickInfo>, populated: Seq<PopulatedTick>) -> Map<
    i32,
    TickInfo,
>
    decreases populated.len(),
{
    if populated.len() == 0 {
        ticks
    } else {
        with_ticks(ticks, populated.drop_last()).insert(
            populated.last().tick,
            info_of(populated.last()),
        )
    }
}

/// The positions of the bitmap words that are read for a pool whose current tick has its
/// bit in the word at `index`: that word, `WORDS_BELOW` words before it and `WORDS_ABOVE`
/// after it, in rising order.
pub fn bitmap_window(index: i16) -> (r: Vec<i16>)
    requires
        i16::MIN + WORDS_BELOW <= index <= i16::MAX - WORDS_ABOVE,
    ensures
        r@.len() == WORDS_BELOW + 1 + WORDS_ABOVE,
        forall|i: int| 0 <= i < r@.len() ==> r@[i] == index - WORDS_BELOW + i,
{
    let mut window: Vec<i16> = Vec::new();
    let mut position: i16 = index - WORDS_BELOW;
    while position < index + WORDS_ABOVE
        invariant
            i16::MIN + WORDS_BELOW <= index <= i16::MAX - WORDS_ABOVE,
            index - WORDS_BELOW <= position <= index + WORDS_ABOVE,
            window@.len() == position - (index - WORDS_BELOW),
            forall|i: int| 0 <= i < window@.len() ==> window@[i] == index - WORDS_BELOW + i,
        decreases index + WORDS_ABOVE - position,
    {
        window.push(position);
        position = position + 1;
    }
    window.push(position);
    window
}

impl UniswapV3PoolState {
    /// Records one word of the bitmap and the initialized ticks that the pool reports
    /// for it.
    pub fn record_word(&mut self, index: i16, word: U256, populated: &Vec<PopulatedTick>)
        ensures
            final(self).tick_bitmap@ == old(self).tick_bitmap@.insert(index, word),
            final(self).ticks@ == with_ticks(old(self).ticks@, populated@),
            final(self).slot0 == old(self).slot0,
            final(self).liquidity == old(self).liquidity,
    {
        let mut i: usize = 0;
        while i < populated.len()
            invariant
                i <= populated@.len(),
                self.ticks@ == with_ticks(old(self).ticks@, populated@.take(i as int)),
                self.tick_bitmap@ == old(self).tick_bitmap@,
                self.slot0 == old(self).slot0,
                self.liquidity == old(self).liquidity,
            decreases populated@.len() - i,
        {
            let entry = populated[i];
            self.ticks.insert(
                entry.tick,
                TickInfo {
                    liquidity_gross: entry.liquidity_gross,
                    liquidity_net: entry.liquidity_net,
                },
            );
            proof {
                assert(populated@.take(i + 1).drop_last() == populated@.take(i as int));
                assert(populated@.take(i + 1).last() == populated@[i as int]);
            }
            i = i + 1;
        }
        assert(populated@.take(populated@.len() as int) == populated@);
        self.tick_bitmap.insert(index, word);
    }
}

} // verus!
