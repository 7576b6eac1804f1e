use crate::error::SwapError;
use crate::primitives::{Address, U256};
use vstd::prelude::*;

verus! {

/// The protocol whose contracts a pool runs.
#[derive(Clone, Copy, Debug, PartialEq, Eq, Structural)]
pub enum PoolProtocol {
    Unknown,
    UniswapV2,
    UniswapV2Like,
    UniswapV3,
    UniswapV3Like,
}

/// The pricing model of a pool.
#[derive(Clone, Copy, Debug, PartialEq, Eq, Structural)]
pub enum PoolClass {
    Unknown,
    UniswapV2,
    UniswapV3,
}

impl Default for PoolProtocol {
    fn default() -> (r: PoolProtocol)
        ensures
            r == PoolProtocol::Unknown,
    {
        PoolProtocol::Unknown
    }
}

impl PoolProtocol {
    /// The name under which the protocol is shown.
    pub open spec fn name(self) -> Seq<char> {
        match self {
            PoolProtocol::Unknown => "Unknown"@,
            PoolProtocol::UniswapV2 => "UniswapV2"@,
            PoolProtocol::UniswapV2Like => "UniswapV2Like"@,
            PoolProtocol::UniswapV3 => "UniswapV3"@,
            PoolProtocol::UniswapV3Like => "UniswapV3Like"@,
        }
    }

    /// The protocol's name as text.
    pub fn to_string(&self) -> (s: String)
        ensures
            s@ == self.name(),
    {
        let protocol_name = match self {
            PoolProtocol::Unknown => "Unknown",
            PoolProtocol::UniswapV2 => "UniswapV2",
            PoolProtocol::UniswapV2Like => "UniswapV2Like",
            PoolProtocol::UniswapV3 => "UniswapV3",
            PoolProtocol::UniswapV3Like => "UniswapV3Like",
        };
        protocol_name.to_string()
    }
}

/// A pool that can be asked for a price.
pub trait Pool: Sync + Send {
    /// The pricing model of the pool: unknown, unless the pool says otherwise.
    fn get_class(&self) -> (r: PoolClass)
        default_ensures
            r == PoolClass::Unknown,
    {
        PoolClass::Unknown
    }

    /// The protocol whose contracts the pool runs: unknown, unless the pool says
    /// otherwise.
    fn get_protocol(&self) -> (r: PoolProtocol)
        default_ensures
            r == PoolProtocol::Unknown,
    {
        PoolProtocol::Unknown
    }

    /// The address of the pool's contract.
    fn get_address(&self) -> Address;

    /// The pool's fee, in the unit of its protocol: none, unless the pool says otherwise.
    fn get_fee(&self) -> (r: u32)
        default_ensures
            r == 0,
    {
        0
    }

    /// The tokens that the pool trades: none, unless the pool says otherwise.
    fn get_tokens(&self) -> (r: Vec<Address>)
        default_ensures
            r@ == Seq::<Address>::empty(),
    {
        Vec::new()
    }

    /// Whether the pool can be asked for a price in its present state.
    spec fn can_quote(&self, amount_in: U256) -> bool;

    /// The amount of the other token that the pool pays for `amount_in` of `tok_in`.
    fn calc_amount_out(&self, amount_in: U256, tok_in: Address) -> Result<U256, SwapError>
        requires
            self.can_quote(amount_in),
    ;

    /// Whether the pool lends its tokens within one transaction: it does not, unless the
    /// pool says otherwise.
    fn can_flash_swap(&self) -> (r: bool)
        default_ensures
            !r,
    {
        false
    }
}

} // verus!
