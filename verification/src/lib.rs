//! Client-side library for an NFT-collateralized lending protocol.
//!
//! The library covers the pure core of the client: deterministic derivation
//! of protocol account addresses, the byte-level codec for protocol account
//! records, construction of protocol instructions, the decode pipeline for
//! bulk account listings, and transaction assembly. All network and file
//! I/O lives outside the library; callers hand in raw bytes and take back
//! typed values.

pub mod accounts;
pub mod addresses;
pub mod client;
pub mod codec;
pub mod error;
pub mod instructions;
pub mod plans;
pub mod transaction;
pub mod utils;
