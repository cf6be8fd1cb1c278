//! Verified core of the Solido liquid-staking program and its maintenance daemon.
pub mod pubkey;
pub mod token;
pub mod error;
pub mod account_map;
pub mod state;
pub mod rent;
pub mod maintenance;
