//! Proposal lifecycle: open submission, a fixed timelock before approval,
//! ratification by two distinct authorized signers, and unilateral rejection
//! by any one of them.
use vstd::prelude::*;

use crate::identity::{copy_all, occurs_in, Identity};

verus! {

/// Seconds between a proposal's creation and the first moment it may be
/// approved: 48 hours.
pub const TIMELOCK_SECONDS: i64 = 172800;

/// Number of distinct signer approvals that ratify a proposal.
pub const APPROVAL_THRESHOLD: usize = 2;

#[derive(Clone, Copy, Debug, PartialEq, Eq, Structural)]
pub enum ProposalType {
    PartnershipApproval,
    TreasuryWithdrawal,
    ParameterChange,
    EmergencyAction,
}

/// Lifecycle state of a proposal. `Executed` is set only by an execution
/// step outside this library.
#[derive(Clone, Copy, Debug, PartialEq, Eq, Structural)]
pub enum ProposalStatus {
    Pending,
    Approved,
    Rejected,
    Executed,
}

#[derive(Clone, Copy, Debug, PartialEq, Eq, Structural)]
pub enum GovernanceError {
    /// The supplied id is not the id of the loaded proposal.
    InvalidProposal,
    /// The proposal is no longer pending.
    ProposalNotPending,
    /// The caller is not one of the three authorized signers.
    InvalidSigner,
    /// The caller has already approved this proposal.
    AlreadyApproved,
    /// The proposal's timelock has not yet elapsed.
    TimelockedProposal,
    /// No proposal has ever been submitted.
    NoProposals,
    /// The proposal counter or the timelock deadline would leave its range.
    MathOverflow,
}

/// The governance configuration: three authorized signers and the counter
/// from which proposal ids are drawn.
#[derive(Clone, Copy, Debug)]
pub struct Governance {
    pub signer_1: Identity,
    pub signer_2: Identity,
    pub signer_3: Identity,
    pub proposal_count: u64,
}

impl Governance {
    /// The authorized signers.
    pub open spec fn signer_set(self) -> Set<Identity> {
        set![self.signer_1, self.signer_2, self.signer_3]
    }

    /// The three signers are pairwise distinct.
    pub open spec fn wf(self) -> bool {
        &&& self.signer_1 != self.signer_2
        &&& self.signer_1 != self.signer_3
        &&& self.signer_2 != self.signer_3
    }

    /// Whether `who` is one of the authorized signers.
    pub fn is_authorized(&self, who: Identity) -> (r: bool)
        ensures
            r == self.signer_set().contains(who),
    {
        who == self.signer_1 || who == self.signer_2 || who == self.signer_3
    }
}

/// Sets up governance with three distinct signers and no proposals yet.
pub fn initialize_governance(signer_1: Identity, signer_2: Identity, signer_3: Identity) -> (r:
    Governance)
    requires
        signer_1 != signer_2,
        signer_1 != signer_3,
        signer_2 != signer_3,
    ensures
        r.wf(),
        r.signer_1 == signer_1,
        r.signer_2 == signer_2,
        r.signer_3 == signer_3,
        r.proposal_count == 0,
{
    Governance { signer_1, signer_2, signer_3, proposal_count: 0 }
}

/// A governance action request and the approvals gathered for it.
#[derive(Clone, Debug)]
pub struct Proposal {
    pub id: u64,
    pub proposer: Identity,
    pub title: String,
    pub description: String,
    pub proposal_type: ProposalType,
    pub created_at: i64,
    pub timelock_until: i64,
    pub status: ProposalStatus,
    pub approved_by: Vec<Identity>,
    pub rejected: bool,
}

/// The mathematical model of a [`Proposal`].
pub struct ProposalView {
    pub id: u64,
    pub proposer: Identity,
    pub title: Seq<char>,
    pub description: Seq<char>,
    pub proposal_type: ProposalType,
    pub created_at: i64,
    pub timelock_until: i64,
    pub status: ProposalStatus,
    pub approved_by: Seq<Identity>,
    pub rejected: bool,
}

impl View for Proposal {
    type V = ProposalView;

    open spec fn view(&self) -> ProposalView {
        ProposalView {
            id: self.id,
            proposer: self.proposer,
            title: self.title@,
            description: self.description@,
            proposal_type: self.proposal_type,
            created_at: self.created_at,
            timelock_until: self.timelock_until,
            status: self.status,
            approved_by: self.approved_by@,
            rejected: self.rejected,
        }
    }
}

impl ProposalView {
    /// What every proposal created and moved by this library satisfies:
    /// approvals are distinct, the deadline is fixed relative to creation, a
    /// pending proposal is below the threshold, an approved one is exactly at
    /// it, and the `rejected` flag mirrors the status.
    pub open spec fn wf(self) -> bool {
        &&& self.approved_by.no_duplicates()
        &&& self.timelock_until == self.created_at + TIMELOCK_SECONDS
        &&& self.status == ProposalStatus::Pending ==> self.approved_by.len() < APPROVAL_THRESHOLD
        &&& self.status == ProposalStatus::Approved ==> self.approved_by.len()
            == APPROVAL_THRESHOLD
        &&& self.rejected <==> self.status == ProposalStatus::Rejected
    }

    /// Every recorded approval comes from a signer of `g`.
    pub open spec fn approvals_authorized(self, g: Governance) -> bool {
        forall|i: int| 0 <= i < self.approved_by.len() ==> g.signer_set().contains(self.approved_by[i])
    }
}

/// Emitted when a proposal is created.
#[derive(Clone, Copy, Debug)]
pub struct ProposalSubmitted {
    pub proposal_id: u64,
    pub proposer: Identity,
    pub timestamp: i64,
}

/// Emitted when a proposal reaches the approval threshold.
#[derive(Clone, Debug)]
pub struct ProposalApproved {
    pub proposal_id: u64,
    pub approvers: Vec<Identity>,
    pub timestamp: i64,
}

/// Emitted when a proposal is rejected.
#[derive(Clone, Copy, Debug)]
pub struct ProposalRejected {
    pub proposal_id: u64,
    pub timestamp: i64,
}

/// Emitted when a reward distribution is authorized.
#[derive(Clone, Copy, Debug)]
pub struct RewardsDistributed {
    pub amount: u64,
    pub timestamp: i64,
}

/// Why a submission at time `now` cannot be recorded, if it cannot.
pub open spec fn submit_error(g: Governance, now: i64) -> Option<GovernanceError> {
    if g.proposal_count == u64::MAX || now + TIMELOCK_SECONDS > i64::MAX {
        Some(GovernanceError::MathOverflow)
    } else {
        None
    }
}

/// The proposal that a successful submission creates.
pub open spec fn submitted(
    g: Governance,
    proposer: Identity,
    title: Seq<char>,
    description: Seq<char>,
    proposal_type: ProposalType,
    now: i64,
) -> ProposalView {
    ProposalView {
        id: g.proposal_count,
        proposer,
        title,
        description,
        proposal_type,
        created_at: now,
        timelock_until: (now + TIMELOCK_SECONDS) as i64,
        status: ProposalStatus::Pending,
        approved_by: Seq::empty(),
        rejected: false,
    }
}

/// The configuration after one more proposal has been counted.
pub open spec fn counted(g: Governance) -> Governance {
    Governance { proposal_count: (g.proposal_count + 1) as u64, ..g }
}

/// The first check that an approval by `signer` fails, if any.
pub open spec fn approve_error(
    g: Governance,
    p: ProposalView,
    signer: Identity,
    proposal_id: u64,
    now: i64,
) -> Option<GovernanceError> {
    if p.id != proposal_id {
        Some(GovernanceError::InvalidProposal)
    } else if p.status != ProposalStatus::Pending {
        Some(GovernanceError::ProposalNotPending)
    } else if !g.signer_set().contains(signer) {
        Some(GovernanceError::InvalidSigner)
    } else if p.approved_by.contains(signer) {
        Some(GovernanceError::AlreadyApproved)
    } else if now < p.timelock_until {
        Some(GovernanceError::TimelockedProposal)
    } else {
        None
    }
}

/// The proposal after `signer`'s approval is recorded; reaching the
/// threshold ratifies it.
pub open spec fn approved(p: ProposalView, signer: Identity) -> ProposalView {
    let approvals = p.approved_by.push(signer);
    ProposalView {
        approved_by: approvals,
        status: if approvals.len() >= APPROVAL_THRESHOLD {
            ProposalStatus::Approved
        } else {
            p.status
        },
        ..p
    }
}

/// The first check that a rejection by `signer` fails, if any. Neither the
/// timelock nor earlier approvals play a part.
pub open spec fn reject_error(g: Governance, p: ProposalView, signer: Identity, proposal_id: u64) -> Option<
    GovernanceError,
> {
    if p.id != proposal_id {
        Some(GovernanceError::InvalidProposal)
    } else if p.status != ProposalStatus::Pending {
        Some(GovernanceError::ProposalNotPending)
    } else if !g.signer_set().contains(signer) {
        Some(GovernanceError::InvalidSigner)
    } else {
        None
    }
}

/// The proposal after a rejection.
pub open spec fn rejected(p: ProposalView) -> ProposalView {
    ProposalView { status: ProposalStatus::Rejected, rejected: true, ..p }
}

/// Creates a pending proposal with the next id and a deadline
/// `TIMELOCK_SECONDS` after `now`, and counts it. Anyone may submit.
pub fn submit_proposal(
    governance: &mut Governance,
    proposer: Identity,
    title: String,
    description: String,
    proposal_type: ProposalType,
    now: i64,
) -> (r: Result<(Proposal, ProposalSubmitted), GovernanceError>)
    ensures
        match r {
            Ok((p, ev)) => {
                &&& submit_error(*old(governance), now) is None
                &&& p@ == submitted(*old(governance), proposer, title@, description@, proposal_type, now)
                &&& p@.wf()
                &&& *final(governance) == counted(*old(governance))
                &&& ev == (ProposalSubmitted { proposal_id: p.id, proposer, timestamp: now })
            },
            Err(e) => {
                &&& submit_error(*old(governance), now) == Some(e)
                &&& *final(governance) == *old(governance)
            },
        },
{
    if governance.proposal_count == u64::MAX || now > i64::MAX - TIMELOCK_SECONDS {
        return Err(GovernanceError::MathOverflow);
    }
    let proposal = Proposal {
        id: governance.proposal_count,
        proposer,
        title,
        description,
        proposal_type,
        created_at: now,
        timelock_until: now + TIMELOCK_SECONDS,
        status: ProposalStatus::Pending,
        approved_by: Vec::new(),
        rejected: false,
    };
    governance.proposal_count = governance.proposal_count + 1;
    let event = ProposalSubmitted { proposal_id: proposal.id, proposer, timestamp: now };
    Ok((proposal, event))
}

/// Records `signer`'s approval once the timelock has elapsed; the approval
/// that reaches the threshold ratifies the proposal and yields the event.
/// On any failed check the proposal is left untouched.
pub fn approve_proposal(
    governance: &Governance,
    proposal: &mut Proposal,
    signer: Identity,
    proposal_id: u64,
    now: i64,
) -> (r: Result<Option<ProposalApproved>, GovernanceError>)
    ensures
        match r {
            Ok(ev) => {
                &&& approve_error(*governance, old(proposal)@, signer, proposal_id, now) is None
                &&& final(proposal)@ == approved(old(proposal)@, signer)
                &&& ev is Some <==> final(proposal).status == ProposalStatus::Approved
                &&& ev matches Some(e) ==> {
                    &&& e.proposal_id == proposal_id
                    &&& e.approvers@ == final(proposal)@.approved_by
                    &&& e.timestamp == now
                }
            },
            Err(e) => {
                &&& approve_error(*governance, old(proposal)@, signer, proposal_id, now) == Some(e)
                &&& *final(proposal) == *old(proposal)
            },
        },
        old(proposal)@.wf() ==> final(proposal)@.wf(),
        old(proposal)@.approvals_authorized(*governance)
            ==> final(proposal)@.approvals_authorized(*governance),
{
    if proposal.id != proposal_id {
        return Err(GovernanceError::InvalidProposal);
    }
    if proposal.status != ProposalStatus::Pending {
        return Err(GovernanceError::ProposalNotPending);
    }
    if !governance.is_authorized(signer) {
        return Err(GovernanceError::InvalidSigner);
    }
    if occurs_in(&proposal.approved_by, signer) {
        return Err(GovernanceError::AlreadyApproved);
    }
    if now < proposal.timelock_until {
        return Err(GovernanceError::TimelockedProposal);
    }
    proposal.approved_by.push(signer);
    if proposal.approved_by.len() >= APPROVAL_THRESHOLD {
        proposal.status = ProposalStatus::Approved;
        let approvers = copy_all(&proposal.approved_by);
        Ok(Some(ProposalApproved { proposal_id: proposal.id, approvers, timestamp: now }))
    } else {
        Ok(None)
    }
}

/// Rejects a pending proposal on the word of any one authorized signer, at
/// any time after submission. On any failed check the proposal is left
/// untouched.
pub fn reject_proposal(
    governance: &Governance,
    proposal: &mut Proposal,
    signer: Identity,
    proposal_id: u64,
    now: i64,
) -> (r: Result<ProposalRejected, GovernanceError>)
    ensures
        match r {
            Ok(ev) => {
                &&& reject_error(*governance, old(proposal)@, signer, proposal_id) is None
                &&& final(proposal)@ == rejected(old(proposal)@)
                &&& ev == (ProposalRejected { proposal_id, timestamp: now })
            },
            Err(e) => {
                &&& reject_error(*governance, old(proposal)@, signer, proposal_id) == Some(e)
                &&& *final(proposal) == *old(proposal)
            },
        },
        old(proposal)@.wf() ==> final(proposal)@.wf(),
        old(proposal)@.approvals_authorized(*governance)
            ==> final(proposal)@.approvals_authorized(*governance),
{
    if proposal.id != proposal_id {
        return Err(GovernanceError::InvalidProposal);
    }
    if proposal.status != ProposalStatus::Pending {
        return Err(GovernanceError::ProposalNotPending);
    }
    if !governance.is_authorized(signer) {
        return Err(GovernanceError::InvalidSigner);
    }
    proposal.status = ProposalStatus::Rejected;
    proposal.rejected = true;
    Ok(ProposalRejected { proposal_id: proposal.id, timestamp: now })
}

/// Authorizes a reward distribution of `reward_amount`, guarded only by at
/// least one proposal having ever been submitted. The transfer itself is
/// left to the treasury.
pub fn distribute_rewards(governance: &Governance, reward_amount: u64, now: i64) -> (r: Result<
    RewardsDistributed,
    GovernanceError,
>)
    ensures
        match r {
            Ok(ev) => governance.proposal_count > 0 && ev == (RewardsDistributed {
                amount: reward_amount,
                timestamp: now,
            }),
            Err(e) => governance.proposal_count == 0 && e == GovernanceError::NoProposals,
        },
{
    if governance.proposal_count == 0 {
        return Err(GovernanceError::NoProposals);
    }
    Ok(RewardsDistributed { amount: reward_amount, timestamp: now })
}

/// Once the timelock has passed, the proposal is ratified by exactly the
/// valid approval that brings the count of distinct approvals to the
/// threshold: never by an earlier one, and a later one is never needed.
pub proof fn lemma_ratified_exactly_at_threshold(
    g: Governance,
    p: ProposalView,
    signer: Identity,
    proposal_id: u64,
    now: i64,
)
    requires
        p.wf(),
        approve_error(g, p, signer, proposal_id, now) is None,
    ensures
        approved(p, signer).wf(),
        approved(p, signer).status == ProposalStatus::Approved <==> p.approved_by.len() + 1
            == APPROVAL_THRESHOLD,
        approved(p, signer).status != ProposalStatus::Approved ==> approved(p, signer).status
            == ProposalStatus::Pending,
{
}

/// Two distinct signers approving a fresh proposal at or after its deadline
/// ratify it with the second approval, after which no further approval is
/// accepted.
pub proof fn lemma_two_approvals_ratify(
    g: Governance,
    p: ProposalView,
    first: Identity,
    second: Identity,
    t1: i64,
    t2: i64,
)
    requires
        p.wf(),
        p.status == ProposalStatus::Pending,
        p.approved_by.len() == 0,
        g.signer_set().contains(first),
        g.signer_set().contains(second),
        first != second,
        t1 >= p.timelock_until,
        t2 >= p.timelock_until,
    ensures
        approve_error(g, p, first, p.id, t1) is None,
        approved(p, first).status == ProposalStatus::Pending,
        approve_error(g, approved(p, first), second, p.id, t2) is None,
        approved(approved(p, first), second).status == ProposalStatus::Approved,
        approved(approved(p, first), second).approved_by == seq![first, second],
        forall|third: Identity, t3: i64|
            approve_error(g, approved(approved(p, first), second), third, p.id, t3) == Some(
                GovernanceError::ProposalNotPending,
            ),
{
    assert(approved(approved(p, first), second).approved_by =~= seq![first, second]);
}

/// A single authorized signer rejects a pending proposal at once, whatever
/// the time and whatever approvals it has gathered.
pub proof fn lemma_reject_is_immediate(g: Governance, p: ProposalView, signer: Identity)
    requires
        p.status == ProposalStatus::Pending,
        g.signer_set().contains(signer),
    ensures
        reject_error(g, p, signer, p.id) is None,
        rejected(p).status == ProposalStatus::Rejected,
        rejected(p).rejected,
        rejected(p).approved_by == p.approved_by,
{
}

/// A signer whose approval left the proposal pending is refused with
/// `AlreadyApproved` when approving again, at any time.
pub proof fn lemma_second_approval_by_same_signer(
    g: Governance,
    p: ProposalView,
    signer: Identity,
    proposal_id: u64,
    t1: i64,
    t2: i64,
)
    requires
        approve_error(g, p, signer, proposal_id, t1) is None,
        approved(p, signer).status == ProposalStatus::Pending,
    ensures
        approve_error(g, approved(p, signer), signer, proposal_id, t2) == Some(
            GovernanceError::AlreadyApproved,
        ),
{
    assert(approved(p, signer).approved_by.last() == signer);
}

/// For an otherwise valid approval, the timelock refuses exactly the times
/// strictly before the deadline; the deadline itself is accepted.
pub proof fn lemma_timelock_boundary(
    g: Governance,
    p: ProposalView,
    signer: Identity,
    now: i64,
)
    requires
        p.status == ProposalStatus::Pending,
        g.signer_set().contains(signer),
        !p.approved_by.contains(signer),
    ensures
        approve_error(g, p, signer, p.id, now) == Some(GovernanceError::TimelockedProposal) <==> now
            < p.timelock_until,
        approve_error(g, p, signer, p.id, p.timelock_until) is None,
{
}

/// An identity outside the signer set is refused with `InvalidSigner`, both
/// to approve and to reject, on a pending proposal named by its own id.
pub proof fn lemma_unauthorized_signer(g: Governance, p: ProposalView, who: Identity, now: i64)
    requires
        p.status == ProposalStatus::Pending,
        !g.signer_set().contains(who),
    ensures
        approve_error(g, p, who, p.id, now) == Some(GovernanceError::InvalidSigner),
        reject_error(g, p, who, p.id) == Some(GovernanceError::InvalidSigner),
{
}

} // verus!
