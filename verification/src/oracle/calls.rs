//! All calls on the price oracle in one type, to state what holds of every one of them.

use vstd::prelude::*;

use crate::address::Address;
use crate::context::CallContext;
use crate::oracle::state::{OracleModel, StakingConfig};
use crate::oracle::transitions;

verus! {

/// A call with its arguments.
pub enum OracleCall {
    AddReporter { admin: Address, reporter: Address },
    RemoveReporter { admin: Address, reporter: Address },
    ConfigureStaking { admin: Address, config: StakingConfig },
    Stake { ctx: CallContext, reporter: Address, amount: i128 },
    Unstake { ctx: CallContext, reporter: Address },
    Slash {
        ctx: CallContext,
        admin: Address,
        reporter: Address,
        amount: i128,
        reason: Seq<u8>,
    },
    AddSourceOracle { ctx: CallContext, admin: Address, source: Address },
    RemoveSourceOracle { admin: Address, source: Address },
    ReportPrice { ctx: CallContext, reporter: Address, price: i128 },
    SetFallbackPrice { admin: Address, price: i128 },
    SetMaxPriceDeviation { admin: Address, deviation_bps: u32 },
    SetTwapWindow { admin: Address, window: u32 },
    SetStalenessThreshold { admin: Address, threshold: u32 },
}

/// The outcome of a call.
pub open spec fn outcome(s: OracleModel, call: OracleCall) -> transitions::Step {
    match call {
        OracleCall::AddReporter { admin, reporter } => transitions::add_reporter_step(
            s,
            admin,
            reporter,
        ),
        OracleCall::RemoveReporter { admin, reporter } => transitions::remove_reporter_step(
            s,
            admin,
            reporter,
        ),
        OracleCall::ConfigureStaking { admin, config } => transitions::configure_step(
            s,
            admin,
            config,
        ),
        OracleCall::Stake { ctx, reporter, amount } => transitions::stake_step(
            s,
            ctx,
            reporter,
            amount,
        ),
        OracleCall::Unstake { ctx, reporter } => transitions::unstake_step(s, ctx, reporter),
        OracleCall::Slash { ctx, admin, reporter, amount, reason } => transitions::slash_step(
            s,
            ctx,
            admin,
            reporter,
            amount,
            reason,
        ),
        OracleCall::AddSourceOracle { ctx, admin, source } => transitions::add_source_step(
            s,
            ctx,
            admin,
            source,
        ),
        OracleCall::RemoveSourceOracle { admin, source } => transitions::remove_source_step(
            s,
            admin,
            source,
        ),
        OracleCall::ReportPrice { ctx, reporter, price } => transitions::report_step(
            s,
            ctx,
            reporter,
            price,
        ),
        OracleCall::SetFallbackPrice { admin, price } => transitions::fallback_step(
            s,
            admin,
            price,
        ),
        OracleCall::SetMaxPriceDeviation { admin, deviation_bps } =>
            transitions::max_deviation_step(s, admin, deviation_bps),
        OracleCall::SetTwapWindow { admin, window } => transitions::twap_window_step(
            s,
            admin,
            window,
        ),
        OracleCall::SetStalenessThreshold { admin, threshold } => transitions::staleness_step(
            s,
            admin,
            threshold,
        ),
    }
}

/// The admin who makes a call, where it is one for the admin.
pub open spec fn admin_of(call: OracleCall) -> Option<Address> {
    match call {
        OracleCall::AddReporter { admin, .. } => Some(admin),
        OracleCall::RemoveReporter { admin, .. } => Some(admin),
        OracleCall::ConfigureStaking { admin, .. } => Some(admin),
        OracleCall::Slash { admin, .. } => Some(admin),
        OracleCall::AddSourceOracle { admin, .. } => Some(admin),
        OracleCall::RemoveSourceOracle { admin, .. } => Some(admin),
        OracleCall::SetFallbackPrice { admin, .. } => Some(admin),
        OracleCall::SetMaxPriceDeviation { admin, .. } => Some(admin),
        OracleCall::SetTwapWindow { admin, .. } => Some(admin),
        OracleCall::SetStalenessThreshold { admin, .. } => Some(admin),
        _ => None,
    }
}

/// The oracle's own address, where a call depends on it.
pub open spec fn contract_of(call: OracleCall) -> Option<Address> {
    match call {
        OracleCall::Stake { ctx, .. } => Some(ctx.contract),
        OracleCall::Unstake { ctx, .. } => Some(ctx.contract),
        OracleCall::Slash { ctx, .. } => Some(ctx.contract),
        OracleCall::AddSourceOracle { ctx, .. } => Some(ctx.contract),
        OracleCall::ReportPrice { ctx, .. } => Some(ctx.contract),
        _ => None,
    }
}

} // verus!
