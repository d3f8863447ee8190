use vstd::prelude::*;
use crate::constants::{ACCOUNT_LAYOUT_V1, NO_PREREQ_TASK_ID};
use crate::error::ErrorCode;
use crate::state::{keys_eq, Key, ProtocolState, TaskRecord};

verus! {

/// What the create-task transition reads and writes: the protocol record,
/// the caller, the bump of the task's address and the current time.
pub struct CreateTask {
    pub protocol: ProtocolState,
    pub authority: Key,
    pub task_bump: u8,
    pub now: i64,
}

/// The rejection, if any, of a create-task transition.
pub open spec fn create_task_error(ctx: CreateTask, task_id: u32, required_task_id: u32) -> Option<
    ErrorCode,
> {
    if ctx.protocol.authority@ != ctx.authority@ {
        Some(ErrorCode::Unauthorized)
    } else if required_task_id != NO_PREREQ_TASK_ID && required_task_id == task_id {
        Some(ErrorCode::InvalidTaskPrerequisite)
    } else if ctx.protocol.total_tasks + 1 > u32::MAX {
        Some(ErrorCode::MathOverflow)
    } else {
        None
    }
}

/// Publishes a task on the authority's behalf: the fields are stored as
/// given, with no claims yet and the task active; the protocol counts it. A
/// task may not name itself as its prerequisite. A rejection changes nothing.
pub fn handler(
    ctx: &mut CreateTask,
    task_id: u32,
    title: [u8; 32],
    content_cid: [u8; 64],
    reward_clips: u64,
    max_claims: u16,
    min_tier: u8,
    required_task_id: u32,
) -> (r: Result<TaskRecord, ErrorCode>)
    ensures
        match create_task_error(*old(ctx), task_id, required_task_id) {
            Some(e) => r == Err::<TaskRecord, ErrorCode>(e) && *final(ctx) == *old(ctx),
            None => r is Ok,
        },
        r matches Ok(t) ==> {
            &&& t.bump == old(ctx).task_bump
            &&& t.task_id == task_id
            &&& t.creator == old(ctx).authority
            &&& t.title == title
            &&& t.content_cid == content_cid
            &&& t.reward_clips == reward_clips
            &&& t.max_claims == max_claims
            &&& t.current_claims == 0
            &&& t.is_active
            &&& t.created_at == old(ctx).now
            &&& t.min_tier == min_tier
            &&& t.required_task_id == required_task_id
            &&& final(ctx).protocol == (ProtocolState {
                total_tasks: (old(ctx).protocol.total_tasks + 1) as u32,
                ..old(ctx).protocol
            })
            &&& final(ctx).authority == old(ctx).authority
            &&& final(ctx).task_bump == old(ctx).task_bump
            &&& final(ctx).now == old(ctx).now
        },
{
    if !keys_eq(&ctx.protocol.authority, &ctx.authority) {
        return Err(ErrorCode::Unauthorized);
    }
    if required_task_id != NO_PREREQ_TASK_ID && required_task_id == task_id {
        return Err(ErrorCode::InvalidTaskPrerequisite);
    }
    if ctx.protocol.total_tasks == u32::MAX {
        return Err(ErrorCode::MathOverflow);
    }
    let t = TaskRecord {
        bump: ctx.task_bump,
        layout_version: ACCOUNT_LAYOUT_V1,
        task_id,
        creator: ctx.authority,
        title,
        content_cid,
        reward_clips,
        max_claims,
        current_claims: 0,
        is_active: true,
        created_at: ctx.now,
        min_tier,
        required_task_id,
        reserved: [0u8; 128],
    };
    ctx.protocol.total_tasks = ctx.protocol.total_tasks + 1;
    Ok(t)
}

} // verus!
