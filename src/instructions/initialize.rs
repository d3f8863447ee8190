use vstd::prelude::*;
use crate::constants::{zeros, ACCOUNT_LAYOUT_V1};
use crate::state::{Key, ProtocolState};

verus! {

/// What the initialize transition reads: the caller, who becomes the
/// authority, and the bump of the singleton's derived address.
pub struct Initialize {
    pub authority: Key,
    pub protocol_bump: u8,
}

/// The singleton record that initialize writes.
pub open spec fn initialized_protocol(ctx: Initialize, base_reward_unit: u64, p: ProtocolState) -> bool {
    &&& p.bump == ctx.protocol_bump
    &&& p.layout_version == ACCOUNT_LAYOUT_V1
    &&& p.authority == ctx.authority
    &&& p.base_reward_unit == base_reward_unit
    &&& p.total_agents == 0
    &&& p.total_tasks == 0
    &&& p.total_clips_distributed == 0
    &&& !p.paused
    &&& p.reserved@ == zeros(64)
}

/// Builds the protocol record: the caller is the authority, every counter is
/// zero and the protocol is not paused.
pub fn handler(ctx: &Initialize, base_reward_unit: u64) -> (r: ProtocolState)
    ensures
        initialized_protocol(*ctx, base_reward_unit, r),
{
    let r = ProtocolState {
        bump: ctx.protocol_bump,
        layout_version: ACCOUNT_LAYOUT_V1,
        authority: ctx.authority,
        base_reward_unit,
        total_agents: 0,
        total_tasks: 0,
        total_clips_distributed: 0,
        paused: false,
        reserved: [0u8; 64],
    };
    assert(r.reserved@ =~= zeros(64));
    r
}

} // verus!
