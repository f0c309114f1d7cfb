//! A pay-to-unlock data vault.
//!
//! A buyer pays an exact price to have an opaque payload stored under their
//! identity; the single owner recorded at initialization may later withdraw
//! accumulated funds and read any buyer's stored payload. The store, the
//! caller identity and the attached funds are explicit parameters, so every
//! operation is a pure function from its inputs to its result and its store
//! effect.

pub mod contract;
pub mod decimal;
pub mod error;
pub mod msg;
pub mod state;
