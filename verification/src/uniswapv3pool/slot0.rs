use crate::primitives::U256;
use vstd::prelude::*;

verus! {

/// The first storage slot of a concentrated-liquidity pool: its price and what goes with
/// it.
#[derive(Clone, Copy, Debug)]
pub struct Slot0 {
    /// The tick of the current price.
    pub tick: i32,
    pub fee_protocol: u8,
    /// The square root of the current price, as a Q64.96 number.
    pub sqrt_price_x96: U256,
    pub unlocked: bool,
    pub observation_index: u16,
    pub observation_cardinality: u16,
    pub observation_cardinality_next: u16,
}

impl Default for Slot0 {
    fn default() -> (r: Slot0)
        ensures
            r.tick == 0,
            r.sqrt_price_x96@ == 0,
            r.fee_protocol == 0,
            !r.unlocked,
            r.observation_index == 0,
            r.observation_cardinality == 0,
            r.observation_cardinality_next == 0,
    {
        Slot0 {
            tick: 0,
            fee_protocol: 0,
            sqrt_price_x96: U256::zero(),
            unlocked: false,
            observation_index: 0,
            observation_cardinality: 0,
            observation_cardinality_next: 0,
        }
    }
}

} // verus!
