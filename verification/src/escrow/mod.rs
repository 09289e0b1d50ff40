//! Milestone escrow: a client locks funds for a job and they leave it milestone by milestone.

pub mod error;
pub mod types;
pub mod milestones;
pub mod admin;
pub mod events;
pub mod state;
pub mod transitions;
pub mod contract;
pub mod calls;
pub mod laws;
pub mod effect_laws;
pub mod fund_laws;
pub mod record_laws;
pub mod rule_laws;
