//! Price oracle: reporters with a stake report prices, and readers get their time-weighted average.

pub mod error;
pub mod ring;
pub mod deviation;
pub mod twap;
pub mod aggregate;
pub mod events;
pub mod state;
pub mod transitions;
pub mod contract;
pub mod calls;
pub mod effect_laws;
pub mod laws;
