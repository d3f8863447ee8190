use vstd::prelude::*;
use crate::error::ErrorCode;
use crate::state::{keys_eq, Key, ProtocolState, TaskRecord};

verus! {

/// What the deactivate-task transition reads and writes: the protocol
/// record, the task and the caller.
pub struct DeactivateTask {
    pub protocol: ProtocolState,
    pub task: TaskRecord,
    pub authority: Key,
}

/// Marks the task inactive on the authority's behalf; the record stays. A
/// task that is already inactive stays so. A caller other than the authority
/// is refused and nothing changes.
pub fn handler(ctx: &mut DeactivateTask, task_id: u32) -> (r: Result<(), ErrorCode>)
    ensures
        old(ctx).protocol.authority@ != old(ctx).authority@ ==> r == Err::<(), ErrorCode>(
            ErrorCode::Unauthorized,
        ) && *final(ctx) == *old(ctx),
        old(ctx).protocol.authority@ == old(ctx).authority@ ==> r is Ok && *final(ctx) == (
        DeactivateTask { task: TaskRecord { is_active: false, ..old(ctx).task }, ..*old(ctx) }),
{
    if !keys_eq(&ctx.protocol.authority, &ctx.authority) {
        return Err(ErrorCode::Unauthorized);
    }
    ctx.task.is_active = false;
    Ok(())
}

} // verus!
