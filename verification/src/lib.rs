//! Verified state machines for the AquaChain water-management contracts.
//!
//! Each contract keeps its storage in a value of this crate and exposes one
//! method per message.  Every method states, over the abstract view of the
//! storage, which error it answers and what the storage and the response
//! become.
pub mod actions;
pub mod agent;
pub mod bounty;
pub mod chain;
pub mod citizen;
pub mod dao;
pub mod digest;
pub mod exchange;
pub mod donation;
pub mod initiative;
pub mod json;
pub mod keyed;
pub mod marketplace;
pub mod order;
pub mod sustainable;
pub mod table;
pub mod text;
pub mod utility;
