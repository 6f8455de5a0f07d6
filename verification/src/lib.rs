//! Verified core of a streak-based coinflip game contract.
//!
//! The game logic (multipliers, payout arithmetic, contract initialisation
//! and the checks that guard a new game) is stated and proved here over
//! plain values; the contract's persistent entries are modelled by
//! [`store::ContractStore`].
#![allow(unused_imports)]

pub mod contract;
pub mod game;
pub mod payout;
pub mod randomness;
pub mod store;

pub use game::{AccountId, ContractConfig, ContractStats, Error, GamePhase, GameState, Side, StorageKey};
pub use payout::{calculate_payout, get_multiplier};
