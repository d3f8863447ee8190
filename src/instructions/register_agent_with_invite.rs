use vstd::prelude::*;
use crate::constants::{zeros, ACCOUNT_LAYOUT_V1};
use crate::error::ErrorCode;
use crate::instructions::register_agent::fresh_agent;
use crate::state::{keys_eq, AgentAccount, InviteRecord, Key, ProtocolState};

verus! {

/// What the invite-path registration reads and writes: the protocol record,
/// the inviter's agent and invite records, the caller, the bump of the
/// caller's agent address and the current time.
pub struct RegisterAgentWithInvite {
    pub protocol: ProtocolState,
    pub inviter_agent: AgentAccount,
    pub invite_record: InviteRecord,
    pub agent: Key,
    pub agent_bump: u8,
    pub now: i64,
}

/// Opening balance of an agent who registers through an invite.
pub open spec fn invitee_reward(base: u64) -> int {
    base as int * 3 / 2
}

/// Bonus credited to the inviter for one redeemed invite.
pub open spec fn inviter_bonus(base: u64) -> int {
    base as int / 2
}

/// The rejection, if any, of an invite-path registration, in the order in
/// which the checks run.
pub open spec fn invite_error(ctx: RegisterAgentWithInvite, invite_code: Seq<u8>) -> Option<ErrorCode> {
    let base = ctx.protocol.base_reward_unit;
    if ctx.inviter_agent.wallet@ == ctx.agent@ {
        Some(ErrorCode::SelfReferralNotAllowed)
    } else if !ctx.invite_record.is_active {
        Some(ErrorCode::InviteInactive)
    } else if ctx.invite_record.inviter_wallet@ != ctx.inviter_agent.wallet@ || invite_code
        != ctx.inviter_agent.wallet@ || ctx.invite_record.invite_code@ != invite_code {
        Some(ErrorCode::InvalidInviteCode)
    } else if base * 3 > u64::MAX || ctx.inviter_agent.clips_balance + inviter_bonus(base)
        > u64::MAX || ctx.inviter_agent.invites_sent + 1 > u32::MAX
        || ctx.invite_record.invites_redeemed + 1 > u32::MAX || ctx.protocol.total_agents + 1
        > u32::MAX || ctx.protocol.total_clips_distributed + invitee_reward(base) + inviter_bonus(
        base,
    ) > u64::MAX {
        Some(ErrorCode::MathOverflow)
    } else {
        None
    }
}

/// The records after an accepted invite-path registration, and the new agent.
pub open spec fn registered_with_invite(
    pre: RegisterAgentWithInvite,
    post: RegisterAgentWithInvite,
    a: AgentAccount,
) -> bool {
    let base = pre.protocol.base_reward_unit;
    &&& fresh_agent(a, pre.agent_bump, pre.agent, invitee_reward(base) as u64, pre.now)
    &&& a.invites_redeemed == 1
    &&& a.invited_by == pre.inviter_agent.wallet
    &&& post.inviter_agent == (AgentAccount {
        clips_balance: (pre.inviter_agent.clips_balance + inviter_bonus(base)) as u64,
        invites_sent: (pre.inviter_agent.invites_sent + 1) as u32,
        last_active_at: pre.now,
        ..pre.inviter_agent
    })
    &&& post.invite_record == (InviteRecord {
        invites_redeemed: (pre.invite_record.invites_redeemed + 1) as u32,
        ..pre.invite_record
    })
    &&& post.protocol == (ProtocolState {
        total_agents: (pre.protocol.total_agents + 1) as u32,
        total_clips_distributed: (pre.protocol.total_clips_distributed + invitee_reward(base)
            + inviter_bonus(base)) as u64,
        ..pre.protocol
    })
    &&& post.agent == pre.agent
    &&& post.agent_bump == pre.agent_bump
    &&& post.now == pre.now
}

/// Registers the caller through the inviter's invite: the code must be the
/// inviter's identity, stored as such in an active invite, and the caller must
/// not be the inviter. The caller opens with one and a half base rewards, the
/// inviter gains half of one, and the protocol counts both. A rejection changes
/// nothing.
pub fn handler(ctx: &mut RegisterAgentWithInvite, invite_code: [u8; 32]) -> (r: Result<
    AgentAccount,
    ErrorCode,
>)
    ensures
        match invite_error(*old(ctx), invite_code@) {
            Some(e) => r == Err::<AgentAccount, ErrorCode>(e) && *final(ctx) == *old(ctx),
            None => r is Ok,
        },
        r matches Ok(a) ==> registered_with_invite(*old(ctx), *final(ctx), a),
{
    if keys_eq(&ctx.inviter_agent.wallet, &ctx.agent) {
        return Err(ErrorCode::SelfReferralNotAllowed);
    }
    if !ctx.invite_record.is_active {
        return Err(ErrorCode::InviteInactive);
    }
    if !keys_eq(&ctx.invite_record.inviter_wallet, &ctx.inviter_agent.wallet) {
        return Err(ErrorCode::InvalidInviteCode);
    }
    if !keys_eq(&invite_code, &ctx.inviter_agent.wallet) {
        return Err(ErrorCode::InvalidInviteCode);
    }
    if !keys_eq(&ctx.invite_record.invite_code, &invite_code) {
        return Err(ErrorCode::InvalidInviteCode);
    }
    let base = ctx.protocol.base_reward_unit;
    let tripled = match base.checked_mul(3) {
        None => { return Err(ErrorCode::MathOverflow); },
        Some(t) => t,
    };
    let reward = tripled / 2;
    let bonus = base / 2;
    if ctx.inviter_agent.clips_balance > u64::MAX - bonus {
        return Err(ErrorCode::MathOverflow);
    }
    if ctx.inviter_agent.invites_sent == u32::MAX {
        return Err(ErrorCode::MathOverflow);
    }
    if ctx.invite_record.invites_redeemed == u32::MAX {
        return Err(ErrorCode::MathOverflow);
    }
    if ctx.protocol.total_agents == u32::MAX {
        return Err(ErrorCode::MathOverflow);
    }
    if ctx.protocol.total_clips_distributed > u64::MAX - reward {
        return Err(ErrorCode::MathOverflow);
    }
    if ctx.protocol.total_clips_distributed + reward > u64::MAX - bonus {
        return Err(ErrorCode::MathOverflow);
    }
    let a = AgentAccount {
        bump: ctx.agent_bump,
        layout_version: ACCOUNT_LAYOUT_V1,
        wallet: ctx.agent,
        clips_balance: reward,
        efficiency_tier: 0,
        tasks_completed: 0,
        registered_at: ctx.now,
        last_active_at: ctx.now,
        invites_sent: 0,
        invites_redeemed: 1,
        invited_by: ctx.inviter_agent.wallet,
        reserved: [0u8; 88],
    };
    assert(a.reserved@ =~= zeros(88));
    ctx.inviter_agent.clips_balance = ctx.inviter_agent.clips_balance + bonus;
    ctx.inviter_agent.invites_sent = ctx.inviter_agent.invites_sent + 1;
    ctx.inviter_agent.last_active_at = ctx.now;
    ctx.invite_record.invites_redeemed = ctx.invite_record.invites_redeemed + 1;
    ctx.protocol.total_agents = ctx.protocol.total_agents + 1;
    ctx.protocol.total_clips_distributed = ctx.protocol.total_clips_distributed + reward + bonus;
    Ok(a)
}

} // verus!
