//! All calls on the escrow contract in one type, to state what holds of every one of them.

use vstd::prelude::*;

use crate::address::Address;
use crate::context::CallContext;
use crate::escrow::state::EscrowModel;
use crate::escrow::transitions;
use crate::escrow::types::MilestoneModel;

verus! {

/// A call with its arguments.
pub enum EscrowCall {
    CreateJob {
        ctx: CallContext,
        client: Address,
        freelancer: Address,
        job_id: Seq<u8>,
        token: Address,
        amount: i128,
        milestones: Seq<MilestoneModel>,
        release_after: u32,
    },
    AmendJobMilestones {
        client: Address,
        freelancer: Address,
        job_id: Seq<u8>,
        milestones: Seq<MilestoneModel>,
    },
    ReleaseMilestone { ctx: CallContext, client: Address, job_id: Seq<u8>, index: u32 },
    ClaimMilestone { ctx: CallContext, freelancer: Address, job_id: Seq<u8>, index: u32 },
    SubmitMilestoneProof {
        freelancer: Address,
        job_id: Seq<u8>,
        index: u32,
        proof_hash: [u8; 32],
    },
    VerifyMilestone { oracle: Address, job_id: Seq<u8>, index: u32 },
    DisputeJob { signers: Seq<Address>, job_id: Seq<u8> },
    ResolveDispute { ctx: CallContext, signers: Seq<Address>, job_id: Seq<u8>, approve: bool },
    DisputeMilestone { signers: Seq<Address>, job_id: Seq<u8>, index: u32 },
    ResolveMilestoneDispute {
        ctx: CallContext,
        signers: Seq<Address>,
        job_id: Seq<u8>,
        index: u32,
        approve: bool,
    },
    RefundExpiredJob { ctx: CallContext, client: Address, job_id: Seq<u8> },
    UpdateReleaseAfter { signers: Seq<Address>, job_id: Seq<u8>, release_after: u32 },
    AddAdmin { signers: Seq<Address>, admin: Address },
    RemoveAdmin { signers: Seq<Address>, admin: Address },
    UpdateThreshold { signers: Seq<Address>, threshold: u32 },
}

/// The outcome of a call.
pub open spec fn outcome(s: EscrowModel, call: EscrowCall) -> transitions::Step {
    match call {
        EscrowCall::CreateJob {
            ctx,
            client,
            freelancer,
            job_id,
            token,
            amount,
            milestones,
            release_after,
        } => transitions::create_step(
            s,
            ctx,
            client,
            freelancer,
            job_id,
            token,
            amount,
            milestones,
            release_after,
        ),
        EscrowCall::AmendJobMilestones { client, freelancer, job_id, milestones } =>
            transitions::amend_step(s, client, freelancer, job_id, milestones),
        EscrowCall::ReleaseMilestone { ctx, client, job_id, index } => transitions::release_step(
            s,
            ctx,
            client,
            job_id,
            index,
        ),
        EscrowCall::ClaimMilestone { ctx, freelancer, job_id, index } => transitions::claim_step(
            s,
            ctx,
            freelancer,
            job_id,
            index,
        ),
        EscrowCall::SubmitMilestoneProof { freelancer, job_id, index, proof_hash } =>
            transitions::proof_step(s, freelancer, job_id, index, proof_hash),
        EscrowCall::VerifyMilestone { oracle, job_id, index } => transitions::verify_step(
            s,
            oracle,
            job_id,
            index,
        ),
        EscrowCall::DisputeJob { signers, job_id } => transitions::dispute_job_step(
            s,
            signers,
            job_id,
        ),
        EscrowCall::ResolveDispute { ctx, signers, job_id, approve } => transitions::resolve_step(
            s,
            ctx,
            signers,
            job_id,
            approve,
        ),
        EscrowCall::DisputeMilestone { signers, job_id, index } =>
            transitions::dispute_milestone_step(s, signers, job_id, index),
        EscrowCall::ResolveMilestoneDispute { ctx, signers, job_id, index, approve } =>
            transitions::resolve_milestone_step(s, ctx, signers, job_id, index, approve),
        EscrowCall::RefundExpiredJob { ctx, client, job_id } => transitions::refund_step(
            s,
            ctx,
            client,
            job_id,
        ),
        EscrowCall::UpdateReleaseAfter { signers, job_id, release_after } =>
            transitions::release_after_step(s, signers, job_id, release_after),
        EscrowCall::AddAdmin { signers, admin } => transitions::add_admin_step(s, signers, admin),
        EscrowCall::RemoveAdmin { signers, admin } => transitions::remove_admin_step(
            s,
            signers,
            admin,
        ),
        EscrowCall::UpdateThreshold { signers, threshold } => transitions::threshold_step(
            s,
            signers,
            threshold,
        ),
    }
}

/// The job that a call is about.
pub open spec fn subject(call: EscrowCall) -> Option<Seq<u8>> {
    match call {
        EscrowCall::CreateJob { job_id, .. } => Some(job_id),
        EscrowCall::AmendJobMilestones { job_id, .. } => Some(job_id),
        EscrowCall::ReleaseMilestone { job_id, .. } => Some(job_id),
        EscrowCall::ClaimMilestone { job_id, .. } => Some(job_id),
        EscrowCall::SubmitMilestoneProof { job_id, .. } => Some(job_id),
        EscrowCall::VerifyMilestone { job_id, .. } => Some(job_id),
        EscrowCall::DisputeJob { job_id, .. } => Some(job_id),
        EscrowCall::ResolveDispute { job_id, .. } => Some(job_id),
        EscrowCall::DisputeMilestone { job_id, .. } => Some(job_id),
        EscrowCall::ResolveMilestoneDispute { job_id, .. } => Some(job_id),
        EscrowCall::RefundExpiredJob { job_id, .. } => Some(job_id),
        EscrowCall::UpdateReleaseAfter { job_id, .. } => Some(job_id),
        _ => None,
    }
}

/// The milestone that a call is about, where it is about a single one.
pub open spec fn milestone_of(call: EscrowCall) -> Option<u32> {
    match call {
        EscrowCall::ReleaseMilestone { index, .. } => Some(index),
        EscrowCall::ClaimMilestone { index, .. } => Some(index),
        EscrowCall::SubmitMilestoneProof { index, .. } => Some(index),
        EscrowCall::VerifyMilestone { index, .. } => Some(index),
        EscrowCall::DisputeMilestone { index, .. } => Some(index),
        EscrowCall::ResolveMilestoneDispute { index, .. } => Some(index),
        _ => None,
    }
}

/// The signers of a call that needs the admins' approval.
pub open spec fn approvers(call: EscrowCall) -> Option<Seq<Address>> {
    match call {
        EscrowCall::DisputeJob { signers, .. } => Some(signers),
        EscrowCall::ResolveDispute { signers, .. } => Some(signers),
        EscrowCall::DisputeMilestone { signers, .. } => Some(signers),
        EscrowCall::ResolveMilestoneDispute { signers, .. } => Some(signers),
        EscrowCall::UpdateReleaseAfter { signers, .. } => Some(signers),
        EscrowCall::AddAdmin { signers, .. } => Some(signers),
        EscrowCall::RemoveAdmin { signers, .. } => Some(signers),
        EscrowCall::UpdateThreshold { signers, .. } => Some(signers),
        _ => None,
    }
}

} // verus!
