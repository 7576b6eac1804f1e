pub mod config;
pub mod error;
pub mod primitives;
pub mod types;
pub mod uniswapv2pool;
pub mod uniswapv3pool;
