use crate::primitives::Address;
use std::collections::HashMap;
use vstd::prelude::*;

verus! {

/// A chain that pools live on.
#[derive(Clone, Copy, Debug, PartialEq, Eq, Hash, Structural)]
pub enum Network {
    Ethereum,
}

/// Where a network's node is reached.
#[derive(Clone, Debug, PartialEq, Eq, Hash)]
pub struct NetworkProvider {
    pub api: String,
}

/// Addresses of the core contracts of the constant-product protocol.
#[derive(Clone, Copy, Debug)]
pub struct UniswapV2Core {
    pub router02: Address,
}

/// Addresses of the periphery contracts of the constant-product protocol: none so far.
#[derive(Clone, Copy, Debug)]
pub struct UniswapV2Periphery {}

/// Addresses of the core contracts of the concentrated-liquidity protocol: none so far.
#[derive(Clone, Copy, Debug)]
pub struct UniswapV3Core {}

/// Addresses of the periphery contracts of the concentrated-liquidity protocol.
#[derive(Clone, Copy, Debug)]
pub struct UniswapV3Periphery {
    pub quoter: Address,
    pub quoter_v2: Address,
    pub tick_lens: Address,
}

/// The pools and contracts of the constant-product protocol on one network.
#[derive(Clone, Debug)]
pub struct UniswapV2 {
    /// The pools, by name.
    pub pools: HashMap<String, Address>,
    pub core: UniswapV2Core,
    pub periphery: UniswapV2Periphery,
}

/// The pools and contracts of the concentrated-liquidity protocol on one network.
#[derive(Clone, Debug)]
pub struct UniswapV3 {
    /// The pools, by name.
    pub pools: HashMap<String, Address>,
    pub core: UniswapV3Core,
    pub periphery: UniswapV3Periphery,
}

/// The addresses that are known on one network.
#[derive(Clone, Debug)]
pub struct NetworkAddresses {
    pub uniswap_v2: UniswapV2,
    pub uniswap_v3: UniswapV3,
}

/// Where each network is reached and what is known on it.
#[derive(Debug)]
pub struct Config {
    pub providers: HashMap<Network, NetworkProvider>,
    pub addresses: HashMap<Network, NetworkAddresses>,
}

} // verus!
