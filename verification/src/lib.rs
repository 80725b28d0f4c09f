//! The dispute court of a prediction market: who may vote on a disputed
//! outcome, how the votes are counted, and what the court sends back to the
//! market once voting ends.

pub mod state;
pub mod error;
pub mod text;
pub mod msg;
pub mod prophecy;
pub mod contract;
pub mod admission;
pub mod laws;
pub mod store;
