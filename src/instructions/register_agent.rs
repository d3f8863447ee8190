use vstd::prelude::*;
use crate::constants::{zeros, ACCOUNT_LAYOUT_V1};
use crate::error::ErrorCode;
use crate::state::{AgentAccount, Key, ProtocolState};

verus! {

/// What the register transition reads and writes: the protocol record, the
/// caller, the bump of the caller's agent address and the current time.
pub struct RegisterAgent {
    pub protocol: ProtocolState,
    pub agent: Key,
    pub agent_bump: u8,
    pub now: i64,
}

/// Registration fails only where a protocol counter would overflow.
pub open spec fn register_overflows(p: ProtocolState) -> bool {
    p.total_agents + 1 > u32::MAX || p.total_clips_distributed + p.base_reward_unit > u64::MAX
}

/// A freshly registered agent record: `wallet`, opening `balance`, zeroed
/// counters and both timestamps at `now`.
pub open spec fn fresh_agent(a: AgentAccount, bump: u8, wallet: Key, balance: u64, now: i64) -> bool {
    &&& a.bump == bump
    &&& a.layout_version == ACCOUNT_LAYOUT_V1
    &&& a.wallet == wallet
    &&& a.clips_balance == balance
    &&& a.efficiency_tier == 0
    &&& a.tasks_completed == 0
    &&& a.registered_at == now
    &&& a.last_active_at == now
    &&& a.invites_sent == 0
    &&& a.reserved@ == zeros(88)
}

/// Creates the caller's agent record with the base reward as its balance,
/// and counts the agent and the reward in the protocol record.
pub fn handler(ctx: &mut RegisterAgent) -> (r: Result<AgentAccount, ErrorCode>)
    ensures
        register_overflows(old(ctx).protocol) ==> r == Err::<AgentAccount, ErrorCode>(
            ErrorCode::MathOverflow,
        ) && *final(ctx) == *old(ctx),
        !register_overflows(old(ctx).protocol) ==> r is Ok,
        r matches Ok(a) ==> {
            &&& fresh_agent(a, old(ctx).agent_bump, old(ctx).agent, old(ctx).protocol.base_reward_unit, old(ctx).now)
            &&& a.invites_redeemed == 0
            &&& a.invited_by@ == zeros(32)
            &&& final(ctx).protocol == (ProtocolState {
                total_agents: (old(ctx).protocol.total_agents + 1) as u32,
                total_clips_distributed: (old(ctx).protocol.total_clips_distributed
                    + old(ctx).protocol.base_reward_unit) as u64,
                ..old(ctx).protocol
            })
            &&& final(ctx).agent == old(ctx).agent
            &&& final(ctx).agent_bump == old(ctx).agent_bump
            &&& final(ctx).now == old(ctx).now
        },
{
    let base = ctx.protocol.base_reward_unit;
    if ctx.protocol.total_agents == u32::MAX {
        return Err(ErrorCode::MathOverflow);
    }
    if ctx.protocol.total_clips_distributed > u64::MAX - base {
        return Err(ErrorCode::MathOverflow);
    }
    let a = AgentAccount {
        bump: ctx.agent_bump,
        layout_version: ACCOUNT_LAYOUT_V1,
        wallet: ctx.agent,
        clips_balance: base,
        efficiency_tier: 0,
        tasks_completed: 0,
        registered_at: ctx.now,
        last_active_at: ctx.now,
        invites_sent: 0,
        invites_redeemed: 0,
        invited_by: [0u8; 32],
        reserved: [0u8; 88],
    };
    assert(a.reserved@ =~= zeros(88));
    assert(a.invited_by@ =~= zeros(32));
    ctx.protocol.total_agents = ctx.protocol.total_agents + 1;
    ctx.protocol.total_clips_distributed = ctx.protocol.total_clips_distributed + base;
    Ok(a)
}

} // verus!
