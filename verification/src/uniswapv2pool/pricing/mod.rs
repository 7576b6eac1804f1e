pub mod local;

use crate::primitives::{Address, U256};
use vstd::prelude::*;

verus! {

/// The reserves that the constant-product formula reads.
#[derive(Clone, Copy, Debug)]
pub struct PoolState {
    pub reserve0: U256,
    pub reserve1: U256,
}

/// The constants that the constant-product formula reads.
#[derive(Clone, Copy, Debug)]
pub struct PoolData {
    /// The share of the input that is traded, in ten-thousandths.
    pub fee: U256,
    pub tok0: Address,
    pub tok1: Address,
}

impl From<super::PoolData> for PoolData {
    fn from(val: super::PoolData) -> (r: PoolData) {
        PoolData { fee: U256::from_u64(val.fee as u64), tok0: val.tok0, tok1: val.tok1 }
    }
}

impl vstd::std_specs::convert::FromSpecImpl<super::PoolData> for PoolData {
    open spec fn obeys_from_spec() -> bool {
        true
    }

    open spec fn from_spec(val: super::PoolData) -> PoolData {
        PoolData { fee: U256::spec_from_u64(val.fee as u64), tok0: val.tok0, tok1: val.tok1 }
    }
}

impl From<super::PoolState> for PoolState {
    fn from(val: super::PoolState) -> (r: PoolState) {
        PoolState { reserve0: U256::from_u128(val.reserve0), reserve1: U256::from_u128(val.reserve1) }
    }
}

impl vstd::std_specs::convert::FromSpecImpl<super::PoolState> for PoolState {
    open spec fn obeys_from_spec() -> bool {
        true
    }

    open spec fn from_spec(val: super::PoolState) -> PoolState {
        PoolState { reserve0: U256::spec_from_u128(val.reserve0), reserve1: U256::spec_from_u128(val.reserve1) }
    }
}

} // verus!
