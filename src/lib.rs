//! Recognition and canonical encoding of the addresses that a wallet can send funds to.

pub mod address;
pub mod codec;
pub mod network;

pub use address::RecipientAddress;
pub use network::NetworkParams;
