//! Wallet-ownership verification and membership gating for chat communities.
//!
//! A member proves control of a blockchain address by signing a challenge;
//! the library checks the signature under one of several schemes, reduces
//! the address's unspent outputs to per-asset balances, decides admission
//! against a community policy, and drives the membership record through
//! its states.

pub mod balance;
pub mod btc;
pub mod challenge;
pub mod ckb;
pub mod crypto;
pub mod doge;
pub mod encoding;
pub mod evm;
pub mod gate;
pub mod hashes;
pub mod joyid;
pub mod membership;
pub mod models;
pub mod policy;
pub mod types;
pub mod verify;
