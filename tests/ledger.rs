use paperclip_protocol::address::find_claim_address;
use paperclip_protocol::error::ErrorCode;
use paperclip_protocol::ledger::{Ledger, TxError};
use paperclip_protocol::{
    create_invite, create_task, deactivate_task, initialize, register_agent,
    register_agent_with_invite, submit_proof,
};

const NO_PREREQ: u32 = u32::MAX;

fn key(n: u8) -> [u8; 32] {
    [n; 32]
}

fn program() -> [u8; 32] {
    key(200)
}

fn admin() -> [u8; 32] {
    key(1)
}

fn setup(base: u64) -> Ledger {
    let mut l = Ledger::new(program());
    initialize(&mut l, admin(), base).unwrap();
    l
}

fn add_task(l: &mut Ledger, id: u32, reward: u64, max_claims: u16, required: u32) {
    create_task(l, admin(), id, [3u8; 32], [4u8; 64], reward, max_claims, 0, required, 10).unwrap();
}

fn balance(l: &Ledger, wallet: [u8; 32]) -> u64 {
    l.agents.iter().find(|a| a.wallet == wallet).unwrap().clips_balance
}

fn sum_of_balances(l: &Ledger) -> u64 {
    l.agents.iter().map(|a| a.clips_balance).sum()
}

#[test]
fn counters_follow_registrations_and_rewards() {
    let mut l = setup(1000);
    register_agent(&mut l, key(10), 5).unwrap();
    register_agent(&mut l, key(11), 5).unwrap();
    assert_eq!(register_agent(&mut l, key(11), 6), Err(TxError::AccountInUse));
    create_invite(&mut l, key(10), 7).unwrap();
    register_agent_with_invite(&mut l, key(12), key(10), key(10), 8).unwrap();
    add_task(&mut l, 1, 250, 5, NO_PREREQ);
    submit_proof(&mut l, key(12), 1, [9u8; 64], None, 9).unwrap();
    let p = l.protocol.unwrap();
    assert_eq!(p.total_agents, 3);
    assert_eq!(l.agents.len(), 3);
    assert_eq!(p.total_tasks, 1);
    assert_eq!(p.total_clips_distributed, 1000 + 1000 + 1500 + 500 + 250);
    assert_eq!(p.total_clips_distributed, sum_of_balances(&l));
}

#[test]
fn second_submission_for_same_pair_is_refused() {
    let mut l = setup(100);
    register_agent(&mut l, key(10), 5).unwrap();
    add_task(&mut l, 1, 40, 10, NO_PREREQ);
    submit_proof(&mut l, key(10), 1, [9u8; 64], None, 9).unwrap();
    let before_balance = balance(&l, key(10));
    let before_total = l.protocol.unwrap().total_clips_distributed;
    let before_claims = l.tasks[0].current_claims;
    assert_eq!(
        submit_proof(&mut l, key(10), 1, [8u8; 64], None, 10),
        Err(TxError::AccountInUse)
    );
    assert_eq!(balance(&l, key(10)), before_balance);
    assert_eq!(l.protocol.unwrap().total_clips_distributed, before_total);
    assert_eq!(l.tasks[0].current_claims, before_claims);
    assert_eq!(l.claims.len(), 1);
}

#[test]
fn single_capacity_task_takes_one_claim() {
    let mut l = setup(100);
    register_agent(&mut l, key(10), 5).unwrap();
    register_agent(&mut l, key(11), 5).unwrap();
    add_task(&mut l, 1, 40, 1, NO_PREREQ);
    submit_proof(&mut l, key(10), 1, [9u8; 64], None, 9).unwrap();
    assert_eq!(
        submit_proof(&mut l, key(11), 1, [9u8; 64], None, 9),
        Err(TxError::Program(ErrorCode::TaskFullyClaimed))
    );
    assert_eq!(l.tasks[0].current_claims, 1);
    assert!(l.tasks[0].current_claims <= l.tasks[0].max_claims);
    assert_eq!(balance(&l, key(11)), 100);
}

#[test]
fn prerequisite_chain_is_enforced() {
    let mut l = setup(100);
    register_agent(&mut l, key(10), 5).unwrap();
    register_agent(&mut l, key(11), 5).unwrap();
    add_task(&mut l, 1, 10, 10, NO_PREREQ);
    add_task(&mut l, 2, 20, 10, 1);
    assert_eq!(
        submit_proof(&mut l, key(10), 2, [9u8; 64], None, 9),
        Err(TxError::Program(ErrorCode::MissingRequiredTaskProof))
    );
    let (own, _) = find_claim_address(&program(), 1, &key(10)).unwrap();
    let (foreign, _) = find_claim_address(&program(), 1, &key(11)).unwrap();
    assert_eq!(
        submit_proof(&mut l, key(10), 2, [9u8; 64], Some(own), 9),
        Err(TxError::Program(ErrorCode::MissingRequiredTaskProof))
    );
    submit_proof(&mut l, key(10), 1, [9u8; 64], None, 9).unwrap();
    submit_proof(&mut l, key(11), 1, [9u8; 64], None, 9).unwrap();
    assert_eq!(
        submit_proof(&mut l, key(10), 2, [9u8; 64], Some(foreign), 9),
        Err(TxError::Program(ErrorCode::InvalidPrerequisiteAccount))
    );
    submit_proof(&mut l, key(10), 2, [9u8; 64], Some(own), 9).unwrap();
    assert_eq!(balance(&l, key(10)), 130);
    assert_eq!(l.tasks[1].current_claims, 1);
}

#[test]
fn self_referral_is_refused() {
    let mut l = setup(1000);
    register_agent(&mut l, key(10), 5).unwrap();
    create_invite(&mut l, key(10), 6).unwrap();
    assert_eq!(
        register_agent_with_invite(&mut l, key(10), key(10), key(10), 7),
        Err(TxError::Program(ErrorCode::SelfReferralNotAllowed))
    );
    assert_eq!(balance(&l, key(10)), 1000);
    assert_eq!(l.protocol.unwrap().total_clips_distributed, 1000);
    assert_eq!(l.invites[0].invites_redeemed, 0);
}

#[test]
fn invite_rewards_follow_the_base_unit() {
    let mut l = setup(1000);
    register_agent(&mut l, key(10), 5).unwrap();
    create_invite(&mut l, key(10), 6).unwrap();
    let before = l.protocol.unwrap().total_clips_distributed;
    register_agent_with_invite(&mut l, key(11), key(10), key(10), 7).unwrap();
    assert_eq!(balance(&l, key(11)), 1500);
    assert_eq!(balance(&l, key(10)), 1500);
    assert_eq!(l.protocol.unwrap().total_clips_distributed - before, 2000);
    let invitee = l.agents.iter().find(|a| a.wallet == key(11)).unwrap();
    assert_eq!(invitee.invited_by, key(10));
    assert_eq!(invitee.invites_redeemed, 1);
    let inviter = l.agents.iter().find(|a| a.wallet == key(10)).unwrap();
    assert_eq!(inviter.invites_sent, 1);
    assert_eq!(inviter.last_active_at, 7);
    assert_eq!(l.invites[0].invites_redeemed, 1);
}

#[test]
fn invite_reward_truncates_odd_base() {
    let mut l = setup(7);
    register_agent(&mut l, key(10), 5).unwrap();
    create_invite(&mut l, key(10), 6).unwrap();
    register_agent_with_invite(&mut l, key(11), key(10), key(10), 7).unwrap();
    assert_eq!(balance(&l, key(11)), 10);
    assert_eq!(balance(&l, key(10)), 10);
    assert_eq!(l.protocol.unwrap().total_clips_distributed, 20);
}

#[test]
fn wrong_invite_code_is_refused() {
    let mut l = setup(1000);
    register_agent(&mut l, key(10), 5).unwrap();
    create_invite(&mut l, key(10), 6).unwrap();
    assert_eq!(
        register_agent_with_invite(&mut l, key(11), key(10), key(12), 7),
        Err(TxError::Program(ErrorCode::InvalidInviteCode))
    );
    assert_eq!(l.agents.len(), 1);
}

#[test]
fn missing_invite_or_inviter_is_not_found() {
    let mut l = setup(1000);
    register_agent(&mut l, key(10), 5).unwrap();
    assert_eq!(
        register_agent_with_invite(&mut l, key(11), key(10), key(10), 7),
        Err(TxError::AccountNotFound)
    );
    assert_eq!(
        register_agent_with_invite(&mut l, key(11), key(13), key(13), 7),
        Err(TxError::AccountNotFound)
    );
}

#[test]
fn overflowing_registration_changes_nothing() {
    let mut l = setup(u64::MAX);
    register_agent(&mut l, key(10), 5).unwrap();
    assert_eq!(
        register_agent(&mut l, key(11), 5),
        Err(TxError::Program(ErrorCode::MathOverflow))
    );
    assert_eq!(l.agents.len(), 1);
    assert_eq!(l.protocol.unwrap().total_agents, 1);
    assert_eq!(l.protocol.unwrap().total_clips_distributed, u64::MAX);
}

#[test]
fn overflowing_reward_changes_nothing() {
    let mut l = setup(10);
    register_agent(&mut l, key(10), 5).unwrap();
    add_task(&mut l, 1, u64::MAX, 5, NO_PREREQ);
    assert_eq!(
        submit_proof(&mut l, key(10), 1, [9u8; 64], None, 9),
        Err(TxError::Program(ErrorCode::MathOverflow))
    );
    assert_eq!(balance(&l, key(10)), 10);
    assert_eq!(l.tasks[0].current_claims, 0);
    assert!(l.claims.is_empty());
}

#[test]
fn overflowing_invite_reward_changes_nothing() {
    let mut l = setup(u64::MAX / 2);
    register_agent(&mut l, key(10), 5).unwrap();
    create_invite(&mut l, key(10), 6).unwrap();
    assert_eq!(
        register_agent_with_invite(&mut l, key(11), key(10), key(10), 7),
        Err(TxError::Program(ErrorCode::MathOverflow))
    );
    assert_eq!(l.agents.len(), 1);
    assert_eq!(balance(&l, key(10)), u64::MAX / 2);
}

#[test]
fn only_the_authority_administers_tasks() {
    let mut l = setup(10);
    assert_eq!(
        create_task(&mut l, key(9), 1, [0u8; 32], [0u8; 64], 5, 5, 0, NO_PREREQ, 1),
        Err(TxError::Program(ErrorCode::Unauthorized))
    );
    add_task(&mut l, 1, 5, 5, NO_PREREQ);
    assert_eq!(
        deactivate_task(&mut l, key(9), 1),
        Err(TxError::Program(ErrorCode::Unauthorized))
    );
    assert!(l.tasks[0].is_active);
}

#[test]
fn task_cannot_require_itself() {
    let mut l = setup(10);
    assert_eq!(
        create_task(&mut l, admin(), 4, [0u8; 32], [0u8; 64], 5, 5, 0, 4, 1),
        Err(TxError::Program(ErrorCode::InvalidTaskPrerequisite))
    );
    assert_eq!(l.protocol.unwrap().total_tasks, 0);
    assert!(l.tasks.is_empty());
}

#[test]
fn created_task_holds_its_fields() {
    let mut l = setup(10);
    create_task(&mut l, admin(), 4, [5u8; 32], [6u8; 64], 77, 3, 2, 9, 123).unwrap();
    let t = l.tasks[0];
    assert_eq!(t.task_id, 4);
    assert_eq!(t.creator, admin());
    assert_eq!(t.title, [5u8; 32]);
    assert_eq!(t.content_cid, [6u8; 64]);
    assert_eq!(t.reward_clips, 77);
    assert_eq!(t.max_claims, 3);
    assert_eq!(t.current_claims, 0);
    assert!(t.is_active);
    assert_eq!(t.created_at, 123);
    assert_eq!(t.min_tier, 2);
    assert_eq!(t.required_task_id, 9);
    assert_eq!(l.protocol.unwrap().total_tasks, 1);
    assert_eq!(
        create_task(&mut l, admin(), 4, [5u8; 32], [6u8; 64], 77, 3, 2, 9, 123),
        Err(TxError::AccountInUse)
    );
}

#[test]
fn inactive_task_refuses_proofs() {
    let mut l = setup(10);
    register_agent(&mut l, key(10), 5).unwrap();
    add_task(&mut l, 1, 5, 5, NO_PREREQ);
    deactivate_task(&mut l, admin(), 1).unwrap();
    deactivate_task(&mut l, admin(), 1).unwrap();
    assert!(!l.tasks[0].is_active);
    assert_eq!(
        submit_proof(&mut l, key(10), 1, [9u8; 64], None, 9),
        Err(TxError::Program(ErrorCode::TaskInactive))
    );
    assert_eq!(deactivate_task(&mut l, admin(), 2), Err(TxError::AccountNotFound));
}

#[test]
fn tier_gates_tasks() {
    let mut l = setup(10);
    register_agent(&mut l, key(10), 5).unwrap();
    create_task(&mut l, admin(), 1, [0u8; 32], [0u8; 64], 5, 5, 3, NO_PREREQ, 1).unwrap();
    assert_eq!(
        submit_proof(&mut l, key(10), 1, [9u8; 64], None, 9),
        Err(TxError::Program(ErrorCode::TierTooLow))
    );
}

#[test]
fn accepted_proof_writes_the_claim() {
    let mut l = setup(10);
    register_agent(&mut l, key(10), 5).unwrap();
    add_task(&mut l, 1, 25, 5, NO_PREREQ);
    submit_proof(&mut l, key(10), 1, [9u8; 64], None, 42).unwrap();
    let (addr, bump) = find_claim_address(&program(), 1, &key(10)).unwrap();
    let c = l.claims[0];
    assert_eq!(c.address, addr);
    assert_eq!(c.record.bump, bump);
    assert_eq!(c.record.layout_version, 1);
    assert_eq!(c.record.task_id, 1);
    assert_eq!(c.record.agent, key(10));
    assert_eq!(c.record.proof_cid, [9u8; 64]);
    assert_eq!(c.record.clips_awarded, 25);
    assert_eq!(c.record.completed_at, 42);
    let a = l.agents[0];
    assert_eq!(a.clips_balance, 35);
    assert_eq!(a.tasks_completed, 1);
    assert_eq!(a.last_active_at, 42);
}

#[test]
fn transitions_need_their_records() {
    let mut l = Ledger::new(program());
    assert_eq!(register_agent(&mut l, key(10), 5), Err(TxError::AccountNotFound));
    assert_eq!(create_invite(&mut l, key(10), 5), Err(TxError::AccountNotFound));
    assert_eq!(
        submit_proof(&mut l, key(10), 1, [0u8; 64], None, 5),
        Err(TxError::AccountNotFound)
    );
    initialize(&mut l, admin(), 10).unwrap();
    assert_eq!(initialize(&mut l, admin(), 10), Err(TxError::AccountInUse));
    assert_eq!(create_invite(&mut l, key(10), 5), Err(TxError::AccountNotFound));
    register_agent(&mut l, key(10), 5).unwrap();
    assert_eq!(
        submit_proof(&mut l, key(10), 1, [0u8; 64], None, 5),
        Err(TxError::AccountNotFound)
    );
    create_invite(&mut l, key(10), 5).unwrap();
    assert_eq!(create_invite(&mut l, key(10), 6), Err(TxError::AccountInUse));
    let i = l.invites[0];
    assert_eq!(i.invite_code, key(10));
    assert_eq!(i.inviter_wallet, key(10));
    assert!(i.is_active);
    assert_eq!(i.created_at, 5);
}

#[test]
fn initialize_sets_authority_and_zero_counters() {
    let l = setup(55);
    let p = l.protocol.unwrap();
    assert_eq!(p.authority, admin());
    assert_eq!(p.base_reward_unit, 55);
    assert_eq!(p.total_agents, 0);
    assert_eq!(p.total_tasks, 0);
    assert_eq!(p.total_clips_distributed, 0);
    assert!(!p.paused);
    assert_eq!(p.layout_version, 1);
}
