//! What a call on the escrow contract announces and asks for.

use vstd::prelude::*;

use crate::address::Address;
use crate::context::TokenTransfer;

verus! {

/// What a call announces. `T` is the type of job ids: byte vectors in code, byte sequences in
/// contracts.
#[derive(Debug, PartialEq, Eq)]
pub enum EscrowEvent<T> {
    JobCreated { client: Address, job_id: T, freelancer: Address, amount: i128 },
    JobAmended { client: Address, job_id: T, old_milestone_count: usize, new_milestone_count: usize, amendment_count: u32 },
    MilestoneReleased { client: Address, job_id: T, milestone_index: u32, amount: i128 },
    ProofSubmitted { freelancer: Address, job_id: T, milestone_index: u32 },
    MilestoneVerified { oracle: Address, job_id: T, milestone_index: u32 },
    JobDisputed { job_id: T },
    JobResolved { job_id: T, approve_remaining: bool },
    MilestoneDisputed { job_id: T, milestone_index: u32 },
    MilestoneResolved { job_id: T, milestone_index: u32, approve: bool },
    JobRefunded { client: Address, job_id: T, amount: i128 },
    MilestoneClaimed { freelancer: Address, job_id: T, milestone_index: u32, amount: i128 },
    ReleaseAfterUpdated { job_id: T, release_after: u32 },
    AdminAdded { admin: Address },
    AdminRemoved { admin: Address },
    ThresholdUpdated { threshold: u32 },
}

impl<T> EscrowEvent<T> {
    /// The name under which an event is published.
    pub open spec fn spec_topic(self) -> Seq<char> {
        match self {
            EscrowEvent::JobCreated { .. } => "job_creat"@,
            EscrowEvent::JobAmended { .. } => "job_amend"@,
            EscrowEvent::MilestoneReleased { .. } => "ms_rel"@,
            EscrowEvent::ProofSubmitted { .. } => "ms_proof"@,
            EscrowEvent::MilestoneVerified { .. } => "ms_verif"@,
            EscrowEvent::JobDisputed { .. } => "job_disp"@,
            EscrowEvent::JobResolved { .. } => "job_reslv"@,
            EscrowEvent::MilestoneDisputed { .. } => "ms_disp"@,
            EscrowEvent::MilestoneResolved { .. } => "ms_reslv"@,
            EscrowEvent::JobRefunded { .. } => "job_refnd"@,
            EscrowEvent::MilestoneClaimed { .. } => "ms_claim"@,
            EscrowEvent::ReleaseAfterUpdated { .. } => "rel_upd"@,
            EscrowEvent::AdminAdded { .. } => "admin_add"@,
            EscrowEvent::AdminRemoved { .. } => "admin_rmv"@,
            EscrowEvent::ThresholdUpdated { .. } => "thresh_up"@,
        }
    }

    /// The name under which this event is published.
    pub fn topic(&self) -> (r: &'static str)
        ensures
            r@ == self.spec_topic(),
    {
        match self {
            EscrowEvent::JobCreated { .. } => "job_creat",
            EscrowEvent::JobAmended { .. } => "job_amend",
            EscrowEvent::MilestoneReleased { .. } => "ms_rel",
            EscrowEvent::ProofSubmitted { .. } => "ms_proof",
            EscrowEvent::MilestoneVerified { .. } => "ms_verif",
            EscrowEvent::JobDisputed { .. } => "job_disp",
            EscrowEvent::JobResolved { .. } => "job_reslv",
            EscrowEvent::MilestoneDisputed { .. } => "ms_disp",
            EscrowEvent::MilestoneResolved { .. } => "ms_reslv",
            EscrowEvent::JobRefunded { .. } => "job_refnd",
            EscrowEvent::MilestoneClaimed { .. } => "ms_claim",
            EscrowEvent::ReleaseAfterUpdated { .. } => "rel_upd",
            EscrowEvent::AdminAdded { .. } => "admin_add",
            EscrowEvent::AdminRemoved { .. } => "admin_rmv",
            EscrowEvent::ThresholdUpdated { .. } => "thresh_up",
        }
    }
}

impl View for EscrowEvent<Vec<u8>> {
    type V = EscrowEvent<Seq<u8>>;

    open spec fn view(&self) -> EscrowEvent<Seq<u8>> {
        match *self {
            EscrowEvent::JobCreated { client, job_id, freelancer, amount } => EscrowEvent::JobCreated { client, job_id: job_id@, freelancer, amount },
            EscrowEvent::JobAmended { client, job_id, old_milestone_count, new_milestone_count, amendment_count } => EscrowEvent::JobAmended { client, job_id: job_id@, old_milestone_count, new_milestone_count, amendment_count },
            EscrowEvent::MilestoneReleased { client, job_id, milestone_index, amount } => EscrowEvent::MilestoneReleased { client, job_id: job_id@, milestone_index, amount },
            EscrowEvent::ProofSubmitted { freelancer, job_id, milestone_index } => EscrowEvent::ProofSubmitted { freelancer, job_id: job_id@, milestone_index },
            EscrowEvent::MilestoneVerified { oracle, job_id, milestone_index } => EscrowEvent::MilestoneVerified { oracle, job_id: job_id@, milestone_index },
            EscrowEvent::JobDisputed { job_id } => EscrowEvent::JobDisputed { job_id: job_id@ },
            EscrowEvent::JobResolved { job_id, approve_remaining } => EscrowEvent::JobResolved { job_id: job_id@, approve_remaining },
            EscrowEvent::MilestoneDisputed { job_id, milestone_index } => EscrowEvent::MilestoneDisputed { job_id: job_id@, milestone_index },
            EscrowEvent::MilestoneResolved { job_id, milestone_index, approve } => EscrowEvent::MilestoneResolved { job_id: job_id@, milestone_index, approve },
            EscrowEvent::JobRefunded { client, job_id, amount } => EscrowEvent::JobRefunded { client, job_id: job_id@, amount },
            EscrowEvent::MilestoneClaimed { freelancer, job_id, milestone_index, amount } => EscrowEvent::MilestoneClaimed { freelancer, job_id: job_id@, milestone_index, amount },
            EscrowEvent::ReleaseAfterUpdated { job_id, release_after } => EscrowEvent::ReleaseAfterUpdated { job_id: job_id@, release_after },
            EscrowEvent::AdminAdded { admin } => EscrowEvent::AdminAdded { admin },
            EscrowEvent::AdminRemoved { admin } => EscrowEvent::AdminRemoved { admin },
            EscrowEvent::ThresholdUpdated { threshold } => EscrowEvent::ThresholdUpdated { threshold },
        }
    }
}

/// The name under which a changed reputation is published.
pub const REPUTATION_TOPIC: &'static str = "rep_upd";

/// A freelancer's record after a job was completed.
#[derive(Clone, Copy, Debug, PartialEq, Eq)]
pub struct ReputationUpdate {
    pub freelancer: Address,
    pub completed_jobs: u32,
    pub disputed_jobs: u32,
    pub total_value_completed: i128,
}

/// What a call that went through announces and asks for: first the changed reputation, where
/// there is one, next the event of the call, and last a token movement, where there is one.
#[derive(Debug, PartialEq, Eq)]
pub struct Receipt<T> {
    pub reputation: Option<ReputationUpdate>,
    pub event: EscrowEvent<T>,
    pub transfer: Option<TokenTransfer>,
}

impl View for Receipt<Vec<u8>> {
    type V = Receipt<Seq<u8>>;

    open spec fn view(&self) -> Receipt<Seq<u8>> {
        Receipt { reputation: self.reputation, event: self.event@, transfer: self.transfer }
    }
}

/// The name under which each event is published.
pub proof fn law_escrow_topics<T>(event: EscrowEvent<T>)
    ensures
        event is JobCreated ==> event.spec_topic() == "job_creat"@,
        event is JobAmended ==> event.spec_topic() == "job_amend"@,
        event is MilestoneReleased ==> event.spec_topic() == "ms_rel"@,
        event is ProofSubmitted ==> event.spec_topic() == "ms_proof"@,
        event is MilestoneVerified ==> event.spec_topic() == "ms_verif"@,
        event is JobDisputed ==> event.spec_topic() == "job_disp"@,
        event is JobResolved ==> event.spec_topic() == "job_reslv"@,
        event is MilestoneDisputed ==> event.spec_topic() == "ms_disp"@,
        event is MilestoneResolved ==> event.spec_topic() == "ms_reslv"@,
        event is JobRefunded ==> event.spec_topic() == "job_refnd"@,
        event is MilestoneClaimed ==> event.spec_topic() == "ms_claim"@,
        event is ReleaseAfterUpdated ==> event.spec_topic() == "rel_upd"@,
        event is AdminAdded ==> event.spec_topic() == "admin_add"@,
        event is AdminRemoved ==> event.spec_topic() == "admin_rmv"@,
        event is ThresholdUpdated ==> event.spec_topic() == "thresh_up"@,
        REPUTATION_TOPIC@ == "rep_upd"@,
{
}

/// What an event says is told by its fields.
pub proof fn law_what_escrow_events_say(event: EscrowEvent<Vec<u8>>)
    ensures
        event matches EscrowEvent::JobCreated { client, job_id, freelancer, amount } ==> event@ == (EscrowEvent::<Seq<u8>>::JobCreated { client, job_id: job_id@, freelancer, amount }),
        event matches EscrowEvent::JobAmended { client, job_id, old_milestone_count, new_milestone_count, amendment_count } ==> event@ == (EscrowEvent::<Seq<u8>>::JobAmended { client, job_id: job_id@, old_milestone_count, new_milestone_count, amendment_count }),
        event matches EscrowEvent::MilestoneReleased { client, job_id, milestone_index, amount } ==> event@ == (EscrowEvent::<Seq<u8>>::MilestoneReleased { client, job_id: job_id@, milestone_index, amount }),
        event matches EscrowEvent::ProofSubmitted { freelancer, job_id, milestone_index } ==> event@ == (EscrowEvent::<Seq<u8>>::ProofSubmitted { freelancer, job_id: job_id@, milestone_index }),
        event matches EscrowEvent::MilestoneVerified { oracle, job_id, milestone_index } ==> event@ == (EscrowEvent::<Seq<u8>>::MilestoneVerified { oracle, job_id: job_id@, milestone_index }),
        event matches EscrowEvent::JobDisputed { job_id } ==> event@ == (EscrowEvent::<Seq<u8>>::JobDisputed { job_id: job_id@ }),
        event matches EscrowEvent::JobResolved { job_id, approve_remaining } ==> event@ == (EscrowEvent::<Seq<u8>>::JobResolved { job_id: job_id@, approve_remaining }),
        event matches EscrowEvent::MilestoneDisputed { job_id, milestone_index } ==> event@ == (EscrowEvent::<Seq<u8>>::MilestoneDisputed { job_id: job_id@, milestone_index }),
        event matches EscrowEvent::MilestoneResolved { job_id, milestone_index, approve } ==> event@ == (EscrowEvent::<Seq<u8>>::MilestoneResolved { job_id: job_id@, milestone_index, approve }),
        event matches EscrowEvent::JobRefunded { client, job_id, amount } ==> event@ == (EscrowEvent::<Seq<u8>>::JobRefunded { client, job_id: job_id@, amount }),
        event matches EscrowEvent::MilestoneClaimed { freelancer, job_id, milestone_index, amount } ==> event@ == (EscrowEvent::<Seq<u8>>::MilestoneClaimed { freelancer, job_id: job_id@, milestone_index, amount }),
        event matches EscrowEvent::ReleaseAfterUpdated { job_id, release_after } ==> event@ == (EscrowEvent::<Seq<u8>>::ReleaseAfterUpdated { job_id: job_id@, release_after }),
        event matches EscrowEvent::AdminAdded { admin } ==> event@ == (EscrowEvent::<Seq<u8>>::AdminAdded { admin }),
        event matches EscrowEvent::AdminRemoved { admin } ==> event@ == (EscrowEvent::<Seq<u8>>::AdminRemoved { admin }),
        event matches EscrowEvent::ThresholdUpdated { threshold } ==> event@ == (EscrowEvent::<Seq<u8>>::ThresholdUpdated { threshold }),
{
}

/// What a receipt says is told by its fields.
pub proof fn law_what_escrow_receipts_say(r: Receipt<Vec<u8>>)
    ensures
        r@.reputation == r.reputation,
        r@.event == r.event@,
        r@.transfer == r.transfer,
{
}

} // verus!
