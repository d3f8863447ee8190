use vstd::prelude::*;
use crate::constants::{
    AGENT_RESERVED_BYTES, CLAIM_RESERVED_BYTES, INVITE_RESERVED_BYTES, PROTOCOL_RESERVED_BYTES,
    TASK_RESERVED_BYTES,
};

verus! {

/// A participant or program identity: 32 bytes.
pub type Key = [u8; 32];

/// Byte-wise equality of two identities.
pub fn keys_eq(a: &Key, b: &Key) -> (r: bool)
    ensures
        r == (a@ == b@),
{
    let mut i: usize = 0;
    while i < 32
        invariant
            0 <= i <= 32,
            a@.len() == 32,
            b@.len() == 32,
            forall|j: int| 0 <= j < i ==> a@[j] == b@[j],
        decreases 32 - i,
    {
        if a[i] != b[i] {
            return false;
        }
        i = i + 1;
    }
    assert(a@ =~= b@);
    true
}

/// An account handed to a transition by reference: its address, the program
/// that owns it, and its stored bytes.
pub struct AccountInfo {
    pub key: Key,
    pub owner: Key,
    pub data: Vec<u8>,
}

/// The singleton record of global counters and the administering authority.
#[derive(Clone, Copy, Debug)]
pub struct ProtocolState {
    pub bump: u8,
    pub layout_version: u8,
    pub authority: Key,
    pub base_reward_unit: u64,
    pub total_agents: u32,
    pub total_tasks: u32,
    pub total_clips_distributed: u64,
    pub paused: bool,
    pub reserved: [u8; PROTOCOL_RESERVED_BYTES],
}

impl ProtocolState {
    pub const SPACE: usize = 8 + 1 + 1 + 32 + 8 + 4 + 4 + 8 + 1 + PROTOCOL_RESERVED_BYTES;
}

/// One registered participant.
#[derive(Clone, Copy, Debug)]
pub struct AgentAccount {
    pub bump: u8,
    pub layout_version: u8,
    pub wallet: Key,
    pub clips_balance: u64,
    pub efficiency_tier: u8,
    pub tasks_completed: u32,
    pub registered_at: i64,
    pub last_active_at: i64,
    pub invites_sent: u32,
    pub invites_redeemed: u32,
    pub invited_by: Key,
    pub reserved: [u8; AGENT_RESERVED_BYTES],
}

impl AgentAccount {
    pub const SPACE: usize = 8 + 1 + 1 + 32 + 8 + 1 + 4 + 8 + 8 + 4 + 4 + 32
        + AGENT_RESERVED_BYTES;
}

/// One published unit of work.
#[derive(Clone, Copy, Debug)]
pub struct TaskRecord {
    pub bump: u8,
    pub layout_version: u8,
    pub task_id: u32,
    pub creator: Key,
    pub title: [u8; 32],
    pub content_cid: [u8; 64],
    pub reward_clips: u64,
    pub max_claims: u16,
    pub current_claims: u16,
    pub is_active: bool,
    pub created_at: i64,
    pub min_tier: u8,
    pub required_task_id: u32,
    pub reserved: [u8; TASK_RESERVED_BYTES],
}

impl TaskRecord {
    pub const SPACE: usize = 8 + 1 + 1 + 4 + 32 + 32 + 64 + 8 + 2 + 2 + 1 + 8 + 1 + 4
        + TASK_RESERVED_BYTES;
}

/// The proof that one agent completed one task; never changed once written.
#[derive(Clone, Copy, Debug)]
pub struct ClaimRecord {
    pub bump: u8,
    pub layout_version: u8,
    pub task_id: u32,
    pub agent: Key,
    pub proof_cid: [u8; 64],
    pub clips_awarded: u64,
    pub completed_at: i64,
    pub reserved: [u8; CLAIM_RESERVED_BYTES],
}

impl ClaimRecord {
    pub const SPACE: usize = 8 + 1 + 1 + 4 + 32 + 64 + 8 + 8 + CLAIM_RESERVED_BYTES;
}

/// The referral slot of one inviting agent.
#[derive(Clone, Copy, Debug)]
pub struct InviteRecord {
    pub bump: u8,
    pub layout_version: u8,
    pub inviter_wallet: Key,
    pub invite_code: [u8; 32],
    pub invites_redeemed: u32,
    pub created_at: i64,
    pub is_active: bool,
    pub reserved: [u8; INVITE_RESERVED_BYTES],
}

impl InviteRecord {
    pub const SPACE: usize = 8 + 1 + 1 + 32 + 32 + 4 + 8 + 1 + INVITE_RESERVED_BYTES;
}

} // verus!
