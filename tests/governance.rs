use guardian::governance::{
    approve_proposal, distribute_rewards, initialize_governance, reject_proposal,
    submit_proposal, Governance, GovernanceError, Proposal, ProposalStatus, ProposalType,
    APPROVAL_THRESHOLD, TIMELOCK_SECONDS,
};
use guardian::identity::Identity;
use guardian::store::ProposalStore;

fn key(b: u8) -> Identity {
    Identity::new([b; 32])
}

fn setup() -> (Governance, Identity, Identity, Identity) {
    let (a, b, c) = (key(1), key(2), key(3));
    (initialize_governance(a, b, c), a, b, c)
}

fn submit_at(g: &mut Governance, now: i64) -> Proposal {
    let (p, _) = submit_proposal(
        g,
        key(9),
        "Partner with agent".to_string(),
        "Allocate capital".to_string(),
        ProposalType::PartnershipApproval,
        now,
    )
    .unwrap();
    p
}

#[test]
fn identity_equality_compares_all_bytes() {
    let mut bytes = [5u8; 32];
    assert!(Identity::new(bytes) == key(5));
    bytes[31] = 6;
    assert!(Identity::new(bytes) != key(5));
    bytes[31] = 5;
    bytes[0] = 0;
    assert!(Identity::new(bytes) != key(5));
}

#[test]
fn initialize_sets_signers_and_zero_counter() {
    let (g, a, b, c) = setup();
    assert_eq!(g.proposal_count, 0);
    assert!(g.is_authorized(a));
    assert!(g.is_authorized(b));
    assert!(g.is_authorized(c));
    assert!(!g.is_authorized(key(4)));
}

#[test]
fn submit_assigns_id_and_timelock() {
    let (mut g, _, _, _) = setup();
    let (p, ev) = submit_proposal(
        &mut g,
        key(9),
        "Title".to_string(),
        "Body".to_string(),
        ProposalType::TreasuryWithdrawal,
        1000,
    )
    .unwrap();
    assert_eq!(p.id, 0);
    assert_eq!(p.proposer, key(9));
    assert_eq!(p.title, "Title");
    assert_eq!(p.description, "Body");
    assert_eq!(p.proposal_type, ProposalType::TreasuryWithdrawal);
    assert_eq!(p.created_at, 1000);
    assert_eq!(p.timelock_until, 1000 + 172800);
    assert_eq!(TIMELOCK_SECONDS, 48 * 3600);
    assert_eq!(p.status, ProposalStatus::Pending);
    assert!(p.approved_by.is_empty());
    assert!(!p.rejected);
    assert_eq!(g.proposal_count, 1);
    assert_eq!(ev.proposal_id, 0);
    assert_eq!(ev.proposer, key(9));
    assert_eq!(ev.timestamp, 1000);
}

#[test]
fn submit_ids_strictly_increase_from_zero() {
    let (mut g, _, _, _) = setup();
    for expected in 0..5u64 {
        let p = submit_at(&mut g, 10);
        assert_eq!(p.id, expected);
    }
    assert_eq!(g.proposal_count, 5);
}

#[test]
fn submit_refuses_counter_overflow() {
    let (mut g, _, _, _) = setup();
    g.proposal_count = u64::MAX;
    let r = submit_proposal(&mut g, key(9), String::new(), String::new(), ProposalType::ParameterChange, 0);
    assert_eq!(r.unwrap_err(), GovernanceError::MathOverflow);
    assert_eq!(g.proposal_count, u64::MAX);
}

#[test]
fn submit_refuses_deadline_overflow() {
    let (mut g, _, _, _) = setup();
    let r = submit_proposal(
        &mut g,
        key(9),
        String::new(),
        String::new(),
        ProposalType::EmergencyAction,
        i64::MAX - 172799,
    );
    assert_eq!(r.unwrap_err(), GovernanceError::MathOverflow);
    assert_eq!(g.proposal_count, 0);
    let ok = submit_proposal(
        &mut g,
        key(9),
        String::new(),
        String::new(),
        ProposalType::EmergencyAction,
        i64::MAX - 172800,
    );
    assert_eq!(ok.unwrap().0.timelock_until, i64::MAX);
}

#[test]
fn approval_walkthrough_with_three_signers() {
    let (mut g, a, b, c) = setup();
    let mut p = submit_at(&mut g, 0);
    assert_eq!(p.id, 0);
    assert_eq!(p.timelock_until, 172800);

    let r = approve_proposal(&g, &mut p, a, 0, 100);
    assert_eq!(r.unwrap_err(), GovernanceError::TimelockedProposal);
    assert!(p.approved_by.is_empty());

    let r = approve_proposal(&g, &mut p, a, 0, 172800).unwrap();
    assert!(r.is_none());
    assert_eq!(p.status, ProposalStatus::Pending);
    assert_eq!(p.approved_by, vec![a]);

    let ev = approve_proposal(&g, &mut p, b, 0, 172900).unwrap().unwrap();
    assert_eq!(p.status, ProposalStatus::Approved);
    assert_eq!(p.approved_by, vec![a, b]);
    assert_eq!(ev.proposal_id, 0);
    assert_eq!(ev.approvers, vec![a, b]);
    assert_eq!(ev.timestamp, 172900);

    let r = approve_proposal(&g, &mut p, c, 0, 173000);
    assert_eq!(r.unwrap_err(), GovernanceError::ProposalNotPending);
    assert_eq!(p.approved_by, vec![a, b]);
}

#[test]
fn reject_is_immediate_regardless_of_timelock() {
    let (mut g, a, _, _) = setup();
    let mut p = submit_at(&mut g, 0);
    let ev = reject_proposal(&g, &mut p, a, 0, 5).unwrap();
    assert_eq!(p.status, ProposalStatus::Rejected);
    assert!(p.rejected);
    assert_eq!(ev.proposal_id, 0);
    assert_eq!(ev.timestamp, 5);
}

#[test]
fn reject_after_one_approval() {
    let (mut g, a, b, _) = setup();
    let mut p = submit_at(&mut g, 0);
    approve_proposal(&g, &mut p, a, 0, 200000).unwrap();
    reject_proposal(&g, &mut p, b, 0, 200001).unwrap();
    assert_eq!(p.status, ProposalStatus::Rejected);
    assert_eq!(p.approved_by, vec![a]);
    let r = approve_proposal(&g, &mut p, b, 0, 200002);
    assert_eq!(r.unwrap_err(), GovernanceError::ProposalNotPending);
    let r = reject_proposal(&g, &mut p, a, 0, 200003);
    assert_eq!(r.unwrap_err(), GovernanceError::ProposalNotPending);
}

#[test]
fn approving_twice_is_already_approved() {
    let (mut g, a, _, _) = setup();
    let mut p = submit_at(&mut g, 0);
    approve_proposal(&g, &mut p, a, 0, 172800).unwrap();
    let r = approve_proposal(&g, &mut p, a, 0, 172801);
    assert_eq!(r.unwrap_err(), GovernanceError::AlreadyApproved);
    assert_eq!(p.approved_by, vec![a]);
    assert_eq!(p.status, ProposalStatus::Pending);
}

#[test]
fn timelock_boundary_is_inclusive() {
    let (mut g, a, b, _) = setup();
    let mut p = submit_at(&mut g, 50);
    let r = approve_proposal(&g, &mut p, a, 0, 50 + 172799);
    assert_eq!(r.unwrap_err(), GovernanceError::TimelockedProposal);
    assert!(approve_proposal(&g, &mut p, a, 0, 50 + 172800).is_ok());
    let r = approve_proposal(&g, &mut p, b, 0, 50 + 172800).unwrap();
    assert!(r.is_some());
    assert_eq!(APPROVAL_THRESHOLD, 2);
}

#[test]
fn unauthorized_signer_is_refused() {
    let (mut g, _, _, _) = setup();
    let mut p = submit_at(&mut g, 0);
    let outsider = key(7);
    let r = approve_proposal(&g, &mut p, outsider, 0, 172800);
    assert_eq!(r.unwrap_err(), GovernanceError::InvalidSigner);
    let r = reject_proposal(&g, &mut p, outsider, 0, 1);
    assert_eq!(r.unwrap_err(), GovernanceError::InvalidSigner);
    assert_eq!(p.status, ProposalStatus::Pending);
    assert!(p.approved_by.is_empty());
    assert!(!p.rejected);
}

#[test]
fn proposer_need_not_be_signer() {
    let (mut g, _, _, _) = setup();
    let p = submit_at(&mut g, 0);
    assert_eq!(p.proposer, key(9));
    assert!(!g.is_authorized(key(9)));
}

#[test]
fn mismatched_id_is_invalid_proposal() {
    let (mut g, a, _, _) = setup();
    let mut p = submit_at(&mut g, 0);
    let r = approve_proposal(&g, &mut p, a, 1, 172800);
    assert_eq!(r.unwrap_err(), GovernanceError::InvalidProposal);
    let r = reject_proposal(&g, &mut p, a, 3, 0);
    assert_eq!(r.unwrap_err(), GovernanceError::InvalidProposal);
    assert_eq!(p.status, ProposalStatus::Pending);
}

#[test]
fn distribute_rewards_needs_a_proposal() {
    let (mut g, _, _, _) = setup();
    let r = distribute_rewards(&g, 500, 1);
    assert_eq!(r.unwrap_err(), GovernanceError::NoProposals);
    submit_at(&mut g, 0);
    let ev = distribute_rewards(&g, 500, 2).unwrap();
    assert_eq!(ev.amount, 500);
    assert_eq!(ev.timestamp, 2);
}

#[test]
fn store_assigns_sequential_ids() {
    let (a, b, c) = (key(1), key(2), key(3));
    let mut store = ProposalStore::new(a, b, c);
    assert_eq!(store.proposal_count(), 0);
    for expected in 0..4u64 {
        let ev = store
            .submit(key(9), "t".to_string(), "d".to_string(), ProposalType::ParameterChange, 0)
            .unwrap();
        assert_eq!(ev.proposal_id, expected);
        assert_eq!(store.get(expected).unwrap().id, expected);
    }
    assert_eq!(store.proposal_count(), 4);
    assert!(store.get(4).is_none());
}

#[test]
fn store_routes_approve_and_reject_by_id() {
    let (a, b, c) = (key(1), key(2), key(3));
    let mut store = ProposalStore::new(a, b, c);
    store.submit(key(9), "x".to_string(), "y".to_string(), ProposalType::EmergencyAction, 0).unwrap();
    store.submit(key(9), "x".to_string(), "y".to_string(), ProposalType::EmergencyAction, 0).unwrap();
    assert_eq!(store.approve(2, a, 172800).unwrap_err(), GovernanceError::InvalidProposal);
    assert_eq!(store.reject(5, a, 0).unwrap_err(), GovernanceError::InvalidProposal);
    assert!(store.approve(1, a, 172800).unwrap().is_none());
    assert!(store.approve(1, c, 172800).unwrap().is_some());
    assert_eq!(store.get(1).unwrap().status, ProposalStatus::Approved);
    assert_eq!(store.get(0).unwrap().status, ProposalStatus::Pending);
    let ev = store.reject(0, b, 3).unwrap();
    assert_eq!(ev.proposal_id, 0);
    assert_eq!(store.get(0).unwrap().status, ProposalStatus::Rejected);
    assert_eq!(store.approve(0, a, 172800).unwrap_err(), GovernanceError::ProposalNotPending);
}

#[test]
fn repeat_approval_after_ratification_is_not_pending() {
    let (mut g, a, b, _) = setup();
    let mut p = submit_at(&mut g, 0);
    approve_proposal(&g, &mut p, a, 0, 172800).unwrap();
    approve_proposal(&g, &mut p, b, 0, 172800).unwrap();
    let r = approve_proposal(&g, &mut p, a, 0, 172801);
    assert_eq!(r.unwrap_err(), GovernanceError::ProposalNotPending);
    assert_eq!(p.approved_by, vec![a, b]);
}
