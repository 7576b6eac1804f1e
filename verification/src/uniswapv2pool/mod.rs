pub mod pricing;

use crate::config::UniswapV2Core;
use crate::error::SwapError;
use crate::primitives::{pow2_64, Address, U256};
use crate::types::pool::{Pool, PoolClass, PoolProtocol};
use crate::uniswapv2pool::pricing::local::{amount_view, calc_amount_out, quote};
use vstd::prelude::*;

verus! {

/// What identifies a constant-product pool.
#[derive(Clone, Copy, Debug)]
pub struct PoolMetadata {
    pub pool: Address,
    pub core: UniswapV2Core,
    pub protocol: PoolProtocol,
}

/// What stays the same over a constant-product pool's life.
#[derive(Clone, Copy, Debug)]
pub struct PoolData {
    pub factory: Address,
    pub tok0: Address,
    pub tok1: Address,
    /// The share of the input that is traded, in ten-thousandths.
    pub fee: u32,
    /// The storage slot that holds both reserves, once it is known to agree with the
    /// pool's own answer.
    pub reserves_cell: Option<U256>,
}

/// The reserves of a constant-product pool at one block.
#[derive(Clone, Copy, Debug)]
pub struct PoolState {
    pub reserve0: u128,
    pub reserve1: u128,
}

impl Default for PoolData {
    fn default() -> (r: PoolData)
        ensures
            r.fee == 0,
            r.reserves_cell is None,
    {
        PoolData {
            factory: Address::from_bytes([0u8;20]),
            tok0: Address::from_bytes([0u8;20]),
            tok1: Address::from_bytes([0u8;20]),
            fee: 0,
            reserves_cell: None,
        }
    }
}

impl Default for PoolState {
    fn default() -> (r: PoolState)
        ensures
            r.reserve0 == 0,
            r.reserve1 == 0,
    {
        PoolState { reserve0: 0, reserve1: 0 }
    }
}

/// A constant-product pool with what was read of it.
#[derive(Clone, Copy, Debug)]
pub struct UniswapV2Pool {
    pub metadata: PoolMetadata,
    pub data: PoolData,
    pub state: PoolState,
}

/// The share of the input that these pools trade, in ten-thousandths: all but 0.3%.
pub const FEE: u32 = 9970;

/// The storage slot in which these pools keep both reserves.
pub const RESERVES_SLOT: u64 = 8;

/// Two to the power 112: one more than the largest reserve.
pub open spec fn pow2_112() -> nat {
    0x1_0000_0000_0000_0000_0000_0000_0000nat
}

/// The two reserves that a storage word packs: the first in its lowest 112 bits, the
/// second in the 112 bits above them.
pub open spec fn unpacked_reserves(value: nat) -> (nat, nat) {
    (value % pow2_112(), (value / pow2_112()) % pow2_112())
}

/// Unpacks the two reserves from the storage word that holds them.
pub fn storage_to_reserves(value: U256) -> (r: (U256, U256))
    ensures
        (r.0@, r.1@) == unpacked_reserves(value@),
        r.0@ < pow2_112(),
        r.1@ < pow2_112(),
{
    let l0: u64 = value.limbs[0];
    let l1: u64 = value.limbs[1];
    let l2: u64 = value.limbs[2];
    let l3: u64 = value.limbs[3];
    let low1: u64 = l1 & 0xffff_ffff_ffff;
    let high0: u64 = (l1 >> 48) | (l2 << 16);
    let high1: u64 = (l2 >> 48) | ((l3 & 0xffff_ffff) << 16);
    proof {
        let a = l1 & 0xffff_ffff_ffff;
        let b = l1 >> 48;
        let c = l2 & 0xffff_ffff_ffff;
        let d = l2 >> 48;
        let e = l3 & 0xffff_ffff;
        let f = l3 >> 32;
        assert(l1 == a + b * 0x1_0000_0000_0000 && a < 0x1_0000_0000_0000 && b < 0x1_0000) by (bit_vector)
            requires
                a == l1 & 0xffff_ffff_ffff,
                b == l1 >> 48,
        ;
        assert(l2 == c + d * 0x1_0000_0000_0000 && c < 0x1_0000_0000_0000 && d < 0x1_0000) by (bit_vector)
            requires
                c == l2 & 0xffff_ffff_ffff,
                d == l2 >> 48,
        ;
        assert(l3 == e + f * 0x1_0000_0000 && e < 0x1_0000_0000 && f < 0x1_0000_0000) by (bit_vector)
            requires
                e == l3 & 0xffff_ffff,
                f == l3 >> 32,
        ;
        assert(high0 == b + c * 0x1_0000) by (bit_vector)
            requires
                high0 == (l1 >> 48) | (l2 << 16),
                b == l1 >> 48,
                c == l2 & 0xffff_ffff_ffff,
        ;
        assert(high1 == d + e * 0x1_0000) by (bit_vector)
            requires
                high1 == (l2 >> 48) | ((l3 & 0xffff_ffff) << 16),
                d == l2 >> 48,
                e == l3 & 0xffff_ffff,
        ;
        let low = l0 + a * pow2_64();
        let high = high0 + high1 * pow2_64();
        assert(value@ == low + pow2_112() * (high + pow2_112() * f));
        assert(low < pow2_112());
        assert(high < pow2_112());
        vstd::arithmetic::div_mod::lemma_fundamental_div_mod_converse(
            value@ as int,
            pow2_112() as int,
            high + pow2_112() * f,
            low as int,
        );
        vstd::arithmetic::div_mod::lemma_fundamental_div_mod_converse(
            high + pow2_112() * f,
            pow2_112() as int,
            f as int,
            high as int,
        );
    }
    (U256::from_limbs([l0, low1, 0, 0]), U256::from_limbs([high0, high1, 0, 0]))
}

/// The storage slot from which the reserves can be read in place of a call: the slot
/// whose word `storage_value` unpacks to the reserves that the pool itself reports, or
/// none where it does not.
pub fn resolve_reserves_cell(storage_value: U256, reserve0: u128, reserve1: u128) -> (r: Option<
    U256,
>)
    ensures
        unpacked_reserves(storage_value@) == (reserve0 as nat, reserve1 as nat) ==> r is Some
            && r->Some_0@ == RESERVES_SLOT,
        unpacked_reserves(storage_value@) != (reserve0 as nat, reserve1 as nat) ==> r is None,
{
    let storage_reserves = storage_to_reserves(storage_value);
    if storage_reserves.0 == U256::from_u128(reserve0) && storage_reserves.1 == U256::from_u128(
        reserve1,
    ) {
        Some(U256::from_u64(RESERVES_SLOT))
    } else {
        None
    }
}

/// The pool's state as the storage word of its reserves gives it.
pub fn state_from_storage(storage_value: U256) -> (r: PoolState)
    ensures
        (r.reserve0 as nat, r.reserve1 as nat) == unpacked_reserves(storage_value@),
{
    let (reserve0, reserve1) = storage_to_reserves(storage_value);
    let reserve0 = match reserve0.to_u128() {
        Some(v) => v,
        None => 0,
    };
    let reserve1 = match reserve1.to_u128() {
        Some(v) => v,
        None => 0,
    };
    PoolState { reserve0, reserve1 }
}

impl UniswapV2Pool {
    /// A pool at `pool` of which nothing has been read yet.
    pub fn new(pool: Address, core: UniswapV2Core) -> (r: UniswapV2Pool)
        ensures
            r.metadata.pool == pool,
            r.metadata.core == core,
            r.metadata.protocol == PoolProtocol::UniswapV2Like,
            r.data.fee == 0,
            r.data.reserves_cell is None,
            r.state.reserve0 == 0,
            r.state.reserve1 == 0,
    {
        UniswapV2Pool {
            metadata: PoolMetadata { pool, core, protocol: PoolProtocol::UniswapV2Like },
            data: PoolData::default(),
            state: PoolState::default(),
        }
    }
}

impl Pool for UniswapV2Pool {
    fn get_class(&self) -> (r: PoolClass)
        ensures
            r == PoolClass::UniswapV2,
    {
        PoolClass::UniswapV2
    }

    fn get_protocol(&self) -> (r: PoolProtocol)
        ensures
            r == self.metadata.protocol,
    {
        self.metadata.protocol
    }

    fn get_address(&self) -> (r: Address)
        ensures
            r == self.metadata.pool,
    {
        self.metadata.pool
    }

    fn get_fee(&self) -> (r: u32)
        ensures
            r == self.data.fee,
    {
        self.data.fee
    }

    fn get_tokens(&self) -> (r: Vec<Address>)
        ensures
            r@ == seq![self.data.tok0, self.data.tok1],
    {
        vec![self.data.tok0, self.data.tok1]
    }

    open spec fn can_quote(&self, amount_in: U256) -> bool {
        true
    }

    fn calc_amount_out(&self, amount_in: U256, tok_in: Address) -> (r: Result<U256, SwapError>)
        ensures
            amount_view(r) == quote(
                amount_in@,
                self.data.fee as nat,
                if tok_in@ == self.data.tok0@ {
                    self.state.reserve0 as nat
                } else {
                    self.state.reserve1 as nat
                },
                if tok_in@ == self.data.tok0@ {
                    self.state.reserve1 as nat
                } else {
                    self.state.reserve0 as nat
                },
            ),
    {
        let data = pricing::PoolData::from(self.data);
        let state = pricing::PoolState::from(self.state);
        proof {
            U256::lemma_from_u128(self.state.reserve0);
            U256::lemma_from_u128(self.state.reserve1);
        }
        calc_amount_out(amount_in, tok_in, data, state)
    }
}

} // verus!
