//! Verified core of the Chui node tools: EVM bridge arithmetic and
//! addressing, erasure coding of shreds and the RPC error mapping.

pub mod uint;
pub mod gwei;
pub mod address;
pub mod erasure;
pub mod decimal;
pub mod rpc_custom_error;
pub mod evm_loader;
pub mod balance;
