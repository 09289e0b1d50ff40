//! Stealth donations: anyone gives to a project under a one-time address, and the project withdraws.

pub mod contract;
pub mod effect_laws;
pub mod error;
pub mod events;
pub mod laws;
pub mod state;
pub mod transitions;
