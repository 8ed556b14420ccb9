//! The proposal store: one governance configuration and every proposal
//! submitted against it, addressed by id. Proposals are never removed.
use vstd::prelude::*;

use crate::governance::{
    approve_error, approve_proposal, approved, counted, initialize_governance, reject_error,
    reject_proposal, rejected, submit_error, submit_proposal, submitted, Governance,
    GovernanceError, Proposal, ProposalApproved, ProposalStatus, ProposalRejected, ProposalSubmitted,
    ProposalType, ProposalView,
};
use crate::identity::Identity;

verus! {

/// Governance together with the proposals submitted against it; the
/// proposal with id `i` is held at position `i`.
pub struct ProposalStore {
    pub governance: Governance,
    pub proposals: Vec<Proposal>,
}

impl ProposalStore {
    /// The proposals, as models.
    pub open spec fn records(self) -> Seq<ProposalView> {
        self.proposals@.map_values(|p: Proposal| p@)
    }

    /// The store's invariant: distinct signers, one record per counted
    /// submission, each record at the position of its id, and each record
    /// well formed with approvals from signers only.
    pub open spec fn wf(self) -> bool {
        &&& self.governance.wf()
        &&& self.proposals@.len() == self.governance.proposal_count
        &&& forall|i: int|
            0 <= i < self.proposals@.len() ==> {
                &&& (#[trigger] self.proposals@[i]).id == i
                &&& self.proposals@[i]@.wf()
                &&& self.proposals@[i]@.approvals_authorized(self.governance)
            }
    }

    /// An empty store governed by three distinct signers.
    pub fn new(signer_1: Identity, signer_2: Identity, signer_3: Identity) -> (r: ProposalStore)
        requires
            signer_1 != signer_2,
            signer_1 != signer_3,
            signer_2 != signer_3,
        ensures
            r.wf(),
            r.governance.signer_set() == set![signer_1, signer_2, signer_3],
            r.governance.proposal_count == 0,
            r.records() == Seq::<ProposalView>::empty(),
    {
        let r = ProposalStore {
            governance: initialize_governance(signer_1, signer_2, signer_3),
            proposals: Vec::new(),
        };
        assert(r.records() =~= Seq::<ProposalView>::empty());
        r
    }

    /// Number of proposals ever submitted.
    pub fn proposal_count(&self) -> (r: u64)
        ensures
            r == self.governance.proposal_count,
    {
        self.governance.proposal_count
    }

    /// The proposal with the given id, if one was submitted.
    pub fn get(&self, proposal_id: u64) -> (r: Option<&Proposal>)
        ensures
            match r {
                Some(p) => proposal_id < self.proposals@.len() && *p == self.proposals@[
                    proposal_id as int
                ],
                None => proposal_id >= self.proposals@.len(),
            },
    {
        if proposal_id < self.proposals.len() as u64 {
            Some(&self.proposals[proposal_id as usize])
        } else {
            None
        }
    }

    /// Submits a proposal; its id is the number of proposals submitted
    /// before it.
    pub fn submit(
        &mut self,
        proposer: Identity,
        title: String,
        description: String,
        proposal_type: ProposalType,
        now: i64,
    ) -> (r: Result<ProposalSubmitted, GovernanceError>)
        requires
            old(self).wf(),
        ensures
            final(self).wf(),
            match r {
                Ok(ev) => {
                    &&& submit_error(old(self).governance, now) is None
                    &&& ev == (ProposalSubmitted {
                        proposal_id: old(self).governance.proposal_count,
                        proposer,
                        timestamp: now,
                    })
                    &&& final(self).governance == counted(old(self).governance)
                    &&& final(self).records() == old(self).records().push(
                        submitted(old(self).governance, proposer, title@, description@, proposal_type, now),
                    )
                },
                Err(e) => {
                    &&& submit_error(old(self).governance, now) == Some(e)
                    &&& *final(self) == *old(self)
                },
            },
    {
        match submit_proposal(&mut self.governance, proposer, title, description, proposal_type, now) {
            Ok((p, ev)) => {
                self.proposals.push(p);
                assert(self.records() =~= old(self).records().push(
                    submitted(old(self).governance, proposer, title@, description@, proposal_type, now),
                ));
                Ok(ev)
            },
            Err(e) => Err(e),
        }
    }

    /// Approves the proposal with the given id on behalf of `signer`; an id
    /// that was never submitted is an `InvalidProposal`.
    pub fn approve(&mut self, proposal_id: u64, signer: Identity, now: i64) -> (r: Result<
        Option<ProposalApproved>,
        GovernanceError,
    >)
        requires
            old(self).wf(),
        ensures
            final(self).wf(),
            final(self).governance == old(self).governance,
            final(self).records().len() == old(self).records().len(),
            match r {
                Ok(ev) => {
                    &&& proposal_id < old(self).records().len()
                    &&& approve_error(
                        old(self).governance,
                        old(self).records()[proposal_id as int],
                        signer,
                        proposal_id,
                        now,
                    ) is None
                    &&& final(self).records() == old(self).records().update(
                        proposal_id as int,
                        approved(old(self).records()[proposal_id as int], signer),
                    )
                    &&& ev is Some <==> final(self).records()[proposal_id as int].status
                        == ProposalStatus::Approved
                    &&& ev matches Some(e) ==> {
                        &&& e.proposal_id == proposal_id
                        &&& e.approvers@ == final(self).records()[proposal_id as int].approved_by
                        &&& e.timestamp == now
                    }
                },
                Err(e) => {
                    &&& proposal_id < old(self).records().len() ==> approve_error(
                        old(self).governance,
                        old(self).records()[proposal_id as int],
                        signer,
                        proposal_id,
                        now,
                    ) == Some(e)
                    &&& proposal_id >= old(self).records().len() ==> e
                        == GovernanceError::InvalidProposal
                    &&& final(self).records() == old(self).records()
                },
            },
    {
        if proposal_id >= self.proposals.len() as u64 {
            return Err(GovernanceError::InvalidProposal);
        }
        let i = proposal_id as usize;
        let r = approve_proposal(&self.governance, &mut self.proposals[i], signer, proposal_id, now);
        assert(self.records() =~= old(self).records().update(i as int, self.proposals@[i as int]@));
        proof {
            if r is Err {
                assert(self.records() =~= old(self).records());
            }
        }
        r
    }

    /// Rejects the proposal with the given id on behalf of `signer`; an id
    /// that was never submitted is an `InvalidProposal`.
    pub fn reject(&mut self, proposal_id: u64, signer: Identity, now: i64) -> (r: Result<
        ProposalRejected,
        GovernanceError,
    >)
        requires
            old(self).wf(),
        ensures
            final(self).wf(),
            final(self).governance == old(self).governance,
            final(self).records().len() == old(self).records().len(),
            match r {
                Ok(ev) => {
                    &&& proposal_id < old(self).records().len()
                    &&& reject_error(
                        old(self).governance,
                        old(self).records()[proposal_id as int],
                        signer,
                        proposal_id,
                    ) is None
                    &&& final(self).records() == old(self).records().update(
                        proposal_id as int,
                        rejected(old(self).records()[proposal_id as int]),
                    )
                    &&& ev == (ProposalRejected { proposal_id, timestamp: now })
                },
                Err(e) => {
                    &&& proposal_id < old(self).records().len() ==> reject_error(
                        old(self).governance,
                        old(self).records()[proposal_id as int],
                        signer,
                        proposal_id,
                    ) == Some(e)
                    &&& proposal_id >= old(self).records().len() ==> e
                        == GovernanceError::InvalidProposal
                    &&& final(self).records() == old(self).records()
                },
            },
    {
        if proposal_id >= self.proposals.len() as u64 {
            return Err(GovernanceError::InvalidProposal);
        }
        let i = proposal_id as usize;
        let r = reject_proposal(&self.governance, &mut self.proposals[i], signer, proposal_id, now);
        assert(self.records() =~= old(self).records().update(i as int, self.proposals@[i as int]@));
        proof {
            if r is Err {
                assert(self.records() =~= old(self).records());
            }
        }
        r
    }
}

/// The ids handed out by successive submissions to one store start at 0 and
/// strictly increase, so no two proposals share an id.
pub proof fn lemma_ids_increase_from_zero(store: ProposalStore)
    requires
        store.wf(),
    ensures
        forall|i: int| 0 <= i < store.records().len() ==> (#[trigger] store.records()[i]).id == i,
        forall|i: int, j: int|
            0 <= i < j < store.records().len() ==> (#[trigger] store.records()[i]).id < (
            #[trigger] store.records()[j]).id,
        store.records().len() == store.governance.proposal_count,
{
    assert forall|i: int| 0 <= i < store.records().len() implies (
    #[trigger] store.records()[i]).id == i by {
        assert(store.proposals@[i].id == i);
    }
}

} // verus!
