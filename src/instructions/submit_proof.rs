use vstd::prelude::*;
use crate::address::{find_claim_address, claim_seeds, program_address, derivation_view};
use crate::claim_codec::{claim_discriminator, claim_discriminator_of, is_claim_data, decode_claim};
use crate::codec::u32_at;
use crate::constants::{zeros, ACCOUNT_LAYOUT_V1, NO_PREREQ_TASK_ID};
use crate::error::ErrorCode;
use crate::state::{keys_eq, AccountInfo, AgentAccount, ClaimRecord, Key, ProtocolState, TaskRecord};

verus! {

/// What the submit-proof transition reads and writes: the protocol record,
/// the task and the caller's agent record, the caller, the program's id, the
/// bump of the new claim's address, the current time and the optional
/// reference to the caller's claim on the prerequisite task.
pub struct SubmitProof {
    pub protocol: ProtocolState,
    pub task: TaskRecord,
    pub agent_account: AgentAccount,
    pub agent: Key,
    pub program_id: Key,
    pub claim_bump: u8,
    pub now: i64,
    pub prerequisite: Option<AccountInfo>,
}

/// The plain view of an optional account reference: address, owner, bytes.
pub open spec fn account_view(acc: Option<AccountInfo>) -> Option<(Seq<u8>, Seq<u8>, Seq<u8>)> {
    match acc {
        Some(a) => Some((a.key@, a.owner@, a.data@)),
        None => None,
    }
}

/// The rejection, if any, of a prerequisite reference `acc` that must prove
/// that `agent` completed `required_task_id`; `expected` is the derivation of
/// that claim's address and `disc` the claim records' discriminator.
pub open spec fn prerequisite_check(
    acc: Option<(Seq<u8>, Seq<u8>, Seq<u8>)>,
    expected: Option<(Seq<u8>, u8)>,
    program_id: Seq<u8>,
    required_task_id: u32,
    agent: Seq<u8>,
    disc: Seq<u8>,
) -> Option<ErrorCode> {
    match acc {
        None => Some(ErrorCode::MissingRequiredTaskProof),
        Some((key, owner, data)) => match expected {
            None => Some(ErrorCode::InvalidPrerequisiteAccount),
            Some((addr, _)) => if key != addr {
                Some(ErrorCode::InvalidPrerequisiteAccount)
            } else if owner != program_id {
                Some(ErrorCode::MissingRequiredTaskProof)
            } else if !is_claim_data(data, disc) {
                Some(ErrorCode::MissingRequiredTaskProof)
            } else if u32_at(data, 10) != required_task_id || data.subrange(14, 46) != agent {
                Some(ErrorCode::InvalidPrerequisiteAccount)
            } else {
                None
            },
        },
    }
}

/// Checks a prerequisite reference against the derived address `expected`
/// of the claim of `agent` on `required_task_id`: the address must match, the
/// account must belong to the program, its bytes must read as a claim record,
/// and that claim must be for exactly that task and agent.
pub fn check_prerequisite(
    acc: &Option<AccountInfo>,
    expected: Option<(Key, u8)>,
    program_id: &Key,
    required_task_id: u32,
    agent: &Key,
    disc: &[u8; 8],
) -> (r: Result<(), ErrorCode>)
    ensures
        r == match prerequisite_check(
            account_view(*acc),
            derivation_view(expected),
            program_id@,
            required_task_id,
            agent@,
            disc@,
        ) {
            Some(e) => Err::<(), ErrorCode>(e),
            None => Ok(()),
        },
{
    let a = match acc {
        None => { return Err(ErrorCode::MissingRequiredTaskProof); },
        Some(a) => a,
    };
    let addr = match expected {
        None => { return Err(ErrorCode::InvalidPrerequisiteAccount); },
        Some((addr, _)) => addr,
    };
    if !keys_eq(&a.key, &addr) {
        return Err(ErrorCode::InvalidPrerequisiteAccount);
    }
    if !keys_eq(&a.owner, program_id) {
        return Err(ErrorCode::MissingRequiredTaskProof);
    }
    let claim = match decode_claim(&a.data, disc) {
        None => { return Err(ErrorCode::MissingRequiredTaskProof); },
        Some(c) => c,
    };
    if claim.task_id != required_task_id {
        return Err(ErrorCode::InvalidPrerequisiteAccount);
    }
    if !keys_eq(&claim.agent, agent) {
        return Err(ErrorCode::InvalidPrerequisiteAccount);
    }
    Ok(())
}

/// The rejection, if any, of a submission by `agent` of a proof for `task`,
/// with `prereq` the view of the prerequisite reference, in the order in which
/// the checks run.
pub open spec fn submit_rejection(
    protocol: ProtocolState,
    task: TaskRecord,
    agent_account: AgentAccount,
    agent: Seq<u8>,
    program_id: Seq<u8>,
    prereq: Option<(Seq<u8>, Seq<u8>, Seq<u8>)>,
) -> Option<ErrorCode> {
    let req = task.required_task_id;
    let prereq_error = prerequisite_check(
        prereq,
        program_address(claim_seeds(req, agent), program_id),
        program_id,
        req,
        agent,
        claim_discriminator_of(),
    );
    if agent_account.efficiency_tier < task.min_tier {
        Some(ErrorCode::TierTooLow)
    } else if req != NO_PREREQ_TASK_ID && prereq_error is Some {
        prereq_error
    } else if !task.is_active {
        Some(ErrorCode::TaskInactive)
    } else if task.current_claims >= task.max_claims {
        Some(ErrorCode::TaskFullyClaimed)
    } else if agent_account.clips_balance + task.reward_clips > u64::MAX
        || agent_account.tasks_completed + 1 > u32::MAX || protocol.total_clips_distributed
        + task.reward_clips > u64::MAX {
        Some(ErrorCode::MathOverflow)
    } else {
        None
    }
}

/// The rejection, if any, of the submit-proof transition over `ctx`.
pub open spec fn submit_error(ctx: SubmitProof) -> Option<ErrorCode> {
    submit_rejection(
        ctx.protocol,
        ctx.task,
        ctx.agent_account,
        ctx.agent@,
        ctx.program_id@,
        account_view(ctx.prerequisite),
    )
}

/// The records after an accepted submission, and the claim it creates.
pub open spec fn submitted(
    pre: SubmitProof,
    post: SubmitProof,
    task_id: u32,
    proof_cid: [u8; 64],
    c: ClaimRecord,
) -> bool {
    &&& c.bump == pre.claim_bump
    &&& c.layout_version == ACCOUNT_LAYOUT_V1
    &&& c.task_id == task_id
    &&& c.agent == pre.agent
    &&& c.proof_cid == proof_cid
    &&& c.clips_awarded == pre.task.reward_clips
    &&& c.completed_at == pre.now
    &&& c.reserved@ == zeros(64)
    &&& post.task == (TaskRecord { current_claims: (pre.task.current_claims + 1) as u16, ..pre.task })
    &&& post.agent_account == (AgentAccount {
        clips_balance: (pre.agent_account.clips_balance + pre.task.reward_clips) as u64,
        tasks_completed: (pre.agent_account.tasks_completed + 1) as u32,
        last_active_at: pre.now,
        ..pre.agent_account
    })
    &&& post.protocol == (ProtocolState {
        total_clips_distributed: (pre.protocol.total_clips_distributed
            + pre.task.reward_clips) as u64,
        ..pre.protocol
    })
    &&& post.agent == pre.agent
    &&& post.program_id == pre.program_id
    &&& post.claim_bump == pre.claim_bump
    &&& post.now == pre.now
    &&& post.prerequisite == pre.prerequisite
}

/// Records that the caller completed the task: checks tier, prerequisite,
/// activity and capacity, then creates the claim and credits the task's reward
/// to the caller and to the protocol's total. A rejection changes nothing.
pub fn handler(ctx: &mut SubmitProof, task_id: u32, proof_cid: [u8; 64]) -> (r: Result<
    ClaimRecord,
    ErrorCode,
>)
    ensures
        match submit_error(*old(ctx)) {
            Some(e) => r == Err::<ClaimRecord, ErrorCode>(e) && *final(ctx) == *old(ctx),
            None => r is Ok,
        },
        r matches Ok(c) ==> submitted(*old(ctx), *final(ctx), task_id, proof_cid, c),
{
    if ctx.agent_account.efficiency_tier < ctx.task.min_tier {
        return Err(ErrorCode::TierTooLow);
    }
    let req = ctx.task.required_task_id;
    if req != NO_PREREQ_TASK_ID {
        let expected = find_claim_address(&ctx.program_id, req, &ctx.agent);
        let disc = claim_discriminator();
        let checked = check_prerequisite(
            &ctx.prerequisite,
            expected,
            &ctx.program_id,
            req,
            &ctx.agent,
            &disc,
        );
        if let Err(e) = checked {
            return Err(e);
        }
    }
    if !ctx.task.is_active {
        return Err(ErrorCode::TaskInactive);
    }
    if ctx.task.current_claims >= ctx.task.max_claims {
        return Err(ErrorCode::TaskFullyClaimed);
    }
    let reward = ctx.task.reward_clips;
    if ctx.agent_account.clips_balance > u64::MAX - reward {
        return Err(ErrorCode::MathOverflow);
    }
    if ctx.agent_account.tasks_completed == u32::MAX {
        return Err(ErrorCode::MathOverflow);
    }
    if ctx.protocol.total_clips_distributed > u64::MAX - reward {
        return Err(ErrorCode::MathOverflow);
    }
    ctx.task.current_claims = ctx.task.current_claims + 1;
    ctx.agent_account.clips_balance = ctx.agent_account.clips_balance + reward;
    ctx.agent_account.tasks_completed = ctx.agent_account.tasks_completed + 1;
    ctx.agent_account.last_active_at = ctx.now;
    ctx.protocol.total_clips_distributed = ctx.protocol.total_clips_distributed + reward;
    let c = ClaimRecord {
        bump: ctx.claim_bump,
        layout_version: ACCOUNT_LAYOUT_V1,
        task_id,
        agent: ctx.agent,
        proof_cid,
        clips_awarded: reward,
        completed_at: ctx.now,
        reserved: [0u8; 64],
    };
    assert(c.reserved@ =~= zeros(64));
    Ok(c)
}

} // verus!
