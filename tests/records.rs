use anchor_lang::prelude::Pubkey;
use paperclip_protocol::address::{find_agent_address, find_claim_address, find_protocol_address};
use paperclip_protocol::claim_codec::{claim_discriminator, decode_claim, encode_claim};
use paperclip_protocol::codec::{u32_to_le, u64_to_le};
use paperclip_protocol::error::ErrorCode;
use paperclip_protocol::instructions::register_agent::{self, RegisterAgent};
use paperclip_protocol::instructions::register_agent_with_invite::{self, RegisterAgentWithInvite};
use paperclip_protocol::instructions::submit_proof::{self, check_prerequisite, SubmitProof};
use paperclip_protocol::state::{
    keys_eq, AccountInfo, AgentAccount, ClaimRecord, InviteRecord, ProtocolState, TaskRecord,
};

fn protocol(base: u64) -> ProtocolState {
    ProtocolState {
        bump: 255,
        layout_version: 1,
        authority: [1u8; 32],
        base_reward_unit: base,
        total_agents: 0,
        total_tasks: 0,
        total_clips_distributed: 0,
        paused: false,
        reserved: [0u8; 64],
    }
}

fn agent(wallet: [u8; 32], balance: u64) -> AgentAccount {
    AgentAccount {
        bump: 254,
        layout_version: 1,
        wallet,
        clips_balance: balance,
        efficiency_tier: 0,
        tasks_completed: 0,
        registered_at: 0,
        last_active_at: 0,
        invites_sent: 0,
        invites_redeemed: 0,
        invited_by: [0u8; 32],
        reserved: [0u8; 88],
    }
}

fn task(id: u32, reward: u64, required: u32) -> TaskRecord {
    TaskRecord {
        bump: 253,
        layout_version: 1,
        task_id: id,
        creator: [1u8; 32],
        title: [0u8; 32],
        content_cid: [0u8; 64],
        reward_clips: reward,
        max_claims: 3,
        current_claims: 0,
        is_active: true,
        created_at: 0,
        min_tier: 0,
        required_task_id: required,
        reserved: [0u8; 128],
    }
}

fn claim(task_id: u32, agent: [u8; 32]) -> ClaimRecord {
    ClaimRecord {
        bump: 250,
        layout_version: 1,
        task_id,
        agent,
        proof_cid: [7u8; 64],
        clips_awarded: 0x0102_0304_0506_0708,
        completed_at: -5,
        reserved: [0u8; 64],
    }
}

#[test]
fn little_endian_bytes() {
    assert_eq!(u32_to_le(0x0102_0304), [4, 3, 2, 1]);
    assert_eq!(u64_to_le(0x0102_0304_0506_0708), [8, 7, 6, 5, 4, 3, 2, 1]);
    assert_eq!(u32_to_le(7), 7u32.to_le_bytes());
}

#[test]
fn discriminator_is_digest_prefix() {
    assert_eq!(claim_discriminator(), [57, 229, 0, 9, 65, 62, 96, 7]);
}

#[test]
fn claim_bytes_round_trip() {
    let disc = claim_discriminator();
    let c = claim(9, [5u8; 32]);
    let bytes = encode_claim(&c, &disc);
    assert_eq!(bytes.len(), 190);
    assert_eq!(&bytes[0..8], &disc);
    assert_eq!(&bytes[10..14], &[9, 0, 0, 0]);
    let d = decode_claim(&bytes, &disc).unwrap();
    assert_eq!(d.task_id, 9);
    assert_eq!(d.agent, [5u8; 32]);
    assert_eq!(d.proof_cid, [7u8; 64]);
    assert_eq!(d.clips_awarded, 0x0102_0304_0506_0708);
    assert_eq!(d.completed_at, -5);
    assert_eq!(d.bump, 250);
}

#[test]
fn claim_decoding_refuses_bad_bytes() {
    let disc = claim_discriminator();
    let bytes = encode_claim(&claim(9, [5u8; 32]), &disc);
    assert!(decode_claim(&bytes[..189].to_vec(), &disc).is_none());
    assert!(decode_claim(&Vec::new(), &disc).is_none());
    let mut wrong = bytes.clone();
    wrong[0] ^= 1;
    assert!(decode_claim(&wrong, &disc).is_none());
    let mut longer = bytes.clone();
    longer.push(0);
    assert!(decode_claim(&longer, &disc).is_some());
}

#[test]
fn derived_addresses_match_the_runtime() {
    let program = [200u8; 32];
    let pid = Pubkey::new_from_array(program);
    let (addr, bump) = find_claim_address(&program, 3, &[5u8; 32]).unwrap();
    let (expected, expected_bump) =
        Pubkey::find_program_address(&[b"claim", &3u32.to_le_bytes(), &[5u8; 32]], &pid);
    assert_eq!(addr, expected.to_bytes());
    assert_eq!(bump, expected_bump);
    let (paddr, _) = find_protocol_address(&program).unwrap();
    let (pexpected, _) = Pubkey::find_program_address(&[b"protocol"], &pid);
    assert_eq!(paddr, pexpected.to_bytes());
    let (aaddr, _) = find_agent_address(&program, &[5u8; 32]).unwrap();
    let (aexpected, _) = Pubkey::find_program_address(&[b"agent", &[5u8; 32]], &pid);
    assert_eq!(aaddr, aexpected.to_bytes());
    assert_ne!(aaddr, addr);
}

#[test]
fn key_comparison() {
    assert!(keys_eq(&[3u8; 32], &[3u8; 32]));
    let mut k = [3u8; 32];
    k[31] = 4;
    assert!(!keys_eq(&[3u8; 32], &k));
}

#[test]
fn prerequisite_checks_each_field() {
    let disc = claim_discriminator();
    let program = [200u8; 32];
    let me = [5u8; 32];
    let addr = [77u8; 32];
    let good = AccountInfo { key: addr, owner: program, data: encode_claim(&claim(1, me), &disc) };
    let ok = check_prerequisite(&Some(good), Some((addr, 3)), &program, 1, &me, &disc);
    assert_eq!(ok, Ok(()));
    assert_eq!(
        check_prerequisite(&None, Some((addr, 3)), &program, 1, &me, &disc),
        Err(ErrorCode::MissingRequiredTaskProof)
    );
    let moved = AccountInfo { key: [78u8; 32], owner: program, data: encode_claim(&claim(1, me), &disc) };
    assert_eq!(
        check_prerequisite(&Some(moved), Some((addr, 3)), &program, 1, &me, &disc),
        Err(ErrorCode::InvalidPrerequisiteAccount)
    );
    let foreign_owner = AccountInfo { key: addr, owner: [0u8; 32], data: encode_claim(&claim(1, me), &disc) };
    assert_eq!(
        check_prerequisite(&Some(foreign_owner), Some((addr, 3)), &program, 1, &me, &disc),
        Err(ErrorCode::MissingRequiredTaskProof)
    );
    let garbage = AccountInfo { key: addr, owner: program, data: vec![1, 2, 3] };
    assert_eq!(
        check_prerequisite(&Some(garbage), Some((addr, 3)), &program, 1, &me, &disc),
        Err(ErrorCode::MissingRequiredTaskProof)
    );
    let other_task = AccountInfo { key: addr, owner: program, data: encode_claim(&claim(2, me), &disc) };
    assert_eq!(
        check_prerequisite(&Some(other_task), Some((addr, 3)), &program, 1, &me, &disc),
        Err(ErrorCode::InvalidPrerequisiteAccount)
    );
    let other_agent = AccountInfo { key: addr, owner: program, data: encode_claim(&claim(1, [6u8; 32]), &disc) };
    assert_eq!(
        check_prerequisite(&Some(other_agent), Some((addr, 3)), &program, 1, &me, &disc),
        Err(ErrorCode::InvalidPrerequisiteAccount)
    );
    let any = AccountInfo { key: addr, owner: program, data: encode_claim(&claim(1, me), &disc) };
    assert_eq!(
        check_prerequisite(&Some(any), None, &program, 1, &me, &disc),
        Err(ErrorCode::InvalidPrerequisiteAccount)
    );
}

#[test]
fn register_counter_at_maximum_overflows() {
    let mut p = protocol(10);
    p.total_agents = u32::MAX;
    let mut ctx = RegisterAgent { protocol: p, agent: [5u8; 32], agent_bump: 1, now: 3 };
    assert_eq!(register_agent::handler(&mut ctx).unwrap_err(), ErrorCode::MathOverflow);
    assert_eq!(ctx.protocol.total_agents, u32::MAX);
    assert_eq!(ctx.protocol.total_clips_distributed, 0);
}

#[test]
fn inviter_counter_at_maximum_overflows() {
    let inviter = [6u8; 32];
    let mut inviter_agent = agent(inviter, 100);
    inviter_agent.invites_sent = u32::MAX;
    let invite = InviteRecord {
        bump: 1,
        layout_version: 1,
        inviter_wallet: inviter,
        invite_code: inviter,
        invites_redeemed: 0,
        created_at: 0,
        is_active: true,
        reserved: [0u8; 64],
    };
    let mut ctx = RegisterAgentWithInvite {
        protocol: protocol(10),
        inviter_agent,
        invite_record: invite,
        agent: [5u8; 32],
        agent_bump: 1,
        now: 3,
    };
    assert_eq!(
        register_agent_with_invite::handler(&mut ctx, inviter).unwrap_err(),
        ErrorCode::MathOverflow
    );
    assert_eq!(ctx.inviter_agent.clips_balance, 100);
    assert_eq!(ctx.invite_record.invites_redeemed, 0);
    assert_eq!(ctx.protocol.total_agents, 0);
}

#[test]
fn inactive_invite_is_refused() {
    let inviter = [6u8; 32];
    let invite = InviteRecord {
        bump: 1,
        layout_version: 1,
        inviter_wallet: inviter,
        invite_code: inviter,
        invites_redeemed: 0,
        created_at: 0,
        is_active: false,
        reserved: [0u8; 64],
    };
    let mut ctx = RegisterAgentWithInvite {
        protocol: protocol(10),
        inviter_agent: agent(inviter, 100),
        invite_record: invite,
        agent: [5u8; 32],
        agent_bump: 1,
        now: 3,
    };
    assert_eq!(
        register_agent_with_invite::handler(&mut ctx, inviter).unwrap_err(),
        ErrorCode::InviteInactive
    );
    assert_eq!(ctx.inviter_agent.clips_balance, 100);
}

#[test]
fn tasks_completed_at_maximum_overflows() {
    let mut a = agent([5u8; 32], 0);
    a.tasks_completed = u32::MAX;
    let mut ctx = SubmitProof {
        protocol: protocol(10),
        task: task(1, 5, u32::MAX),
        agent_account: a,
        agent: [5u8; 32],
        program_id: [200u8; 32],
        claim_bump: 1,
        now: 4,
        prerequisite: None,
    };
    assert_eq!(
        submit_proof::handler(&mut ctx, 1, [0u8; 64]).unwrap_err(),
        ErrorCode::MathOverflow
    );
    assert_eq!(ctx.task.current_claims, 0);
    assert_eq!(ctx.agent_account.clips_balance, 0);
}

#[test]
fn tier_below_task_floor_is_refused() {
    let mut t = task(1, 5, u32::MAX);
    t.min_tier = 2;
    let mut a = agent([5u8; 32], 0);
    a.efficiency_tier = 1;
    let mut ctx = SubmitProof {
        protocol: protocol(10),
        task: t,
        agent_account: a,
        agent: [5u8; 32],
        program_id: [200u8; 32],
        claim_bump: 1,
        now: 4,
        prerequisite: None,
    };
    assert_eq!(submit_proof::handler(&mut ctx, 1, [0u8; 64]).unwrap_err(), ErrorCode::TierTooLow);
    ctx.agent_account.efficiency_tier = 2;
    let c = submit_proof::handler(&mut ctx, 1, [0u8; 64]).unwrap();
    assert_eq!(c.clips_awarded, 5);
    assert_eq!(ctx.agent_account.clips_balance, 5);
}

#[test]
fn error_messages() {
    assert_eq!(ErrorCode::TaskFullyClaimed.message(), "Task is fully claimed");
    assert_eq!(ErrorCode::SelfReferralNotAllowed.message(), "Self-referral is not allowed");
    assert_eq!(ErrorCode::MathOverflow.message(), "Math overflow");
}
