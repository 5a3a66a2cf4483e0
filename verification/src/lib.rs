//! A ledger of water rights on a Soroban host: balances, allowances that
//! expire, and the lifetimes of the entries that hold them.
//!
//! `host` is the boundary to the host's key-value store: one small function
//! for each call of the SDK, each with a contract that is taken on trust, over
//! a model of what the store holds. Everything else is proved against those
//! contracts: `lifetime` holds the sliding-window refresh of entry lifetimes,
//! `balance` and `allowance` the two ledgers, `admin` and `metadata` the
//! single-value slots, and `contract` the token's operations. Every function
//! says what it returns and what store it leaves, and the laws that tie the
//! functions together are proof functions beside them.

pub mod admin;
pub mod allowance;
pub mod balance;
pub mod contract;
pub mod host;
pub mod lifetime;
pub mod metadata;
pub mod storage_types;
