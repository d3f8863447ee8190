use vstd::prelude::*;
use crate::constants::{zeros, ACCOUNT_LAYOUT_V1};
use crate::error::ErrorCode;
use crate::state::{keys_eq, AgentAccount, InviteRecord, Key};

verus! {

/// What the create-invite transition reads: the caller's agent record, the
/// caller, the bump of the invite's address and the current time.
pub struct CreateInvite {
    pub agent_account: AgentAccount,
    pub agent: Key,
    pub invite_bump: u8,
    pub now: i64,
}

/// Opens the caller's invite slot, whose code is the caller's own identity.
/// The agent record must belong to the caller.
pub fn handler(ctx: &CreateInvite) -> (r: Result<InviteRecord, ErrorCode>)
    ensures
        ctx.agent_account.wallet@ != ctx.agent@ ==> r == Err::<InviteRecord, ErrorCode>(
            ErrorCode::Unauthorized,
        ),
        ctx.agent_account.wallet@ == ctx.agent@ ==> r is Ok,
        r matches Ok(i) ==> {
            &&& i.bump == ctx.invite_bump
            &&& i.layout_version == ACCOUNT_LAYOUT_V1
            &&& i.inviter_wallet == ctx.agent
            &&& i.invite_code == ctx.agent
            &&& i.invites_redeemed == 0
            &&& i.created_at == ctx.now
            &&& i.is_active
            &&& i.reserved@ == zeros(64)
        },
{
    if !keys_eq(&ctx.agent_account.wallet, &ctx.agent) {
        return Err(ErrorCode::Unauthorized);
    }
    let i = InviteRecord {
        bump: ctx.invite_bump,
        layout_version: ACCOUNT_LAYOUT_V1,
        inviter_wallet: ctx.agent,
        invite_code: ctx.agent,
        invites_redeemed: 0,
        created_at: ctx.now,
        is_active: true,
        reserved: [0u8; 64],
    };
    assert(i.reserved@ =~= zeros(64));
    Ok(i)
}

} // verus!
