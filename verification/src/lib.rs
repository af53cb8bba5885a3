//! Verified core of a gas-cost benchmark contract: a real-estate registry with
//! an ownership index, and a builder of staking commands for the host chain.

pub mod contract;
pub mod encoding;
pub mod error;
pub mod msg;
pub mod ownership;
pub mod response;
pub mod state;
pub mod storage;

pub use crate::error::{ContractError, RuntimeError};
