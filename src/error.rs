use vstd::prelude::*;

verus! {

/// The typed rejections that a transition can end with. Each aborts the
/// whole transition, leaving every record as it was.
#[derive(Clone, Copy, Debug, PartialEq, Eq, Structural)]
pub enum ErrorCode {
    Unauthorized,
    TaskInactive,
    TaskFullyClaimed,
    MathOverflow,
    TierTooLow,
    MissingRequiredTaskProof,
    InvalidPrerequisiteAccount,
    InvalidTaskPrerequisite,
    InvalidInviteCode,
    InviteInactive,
    SelfReferralNotAllowed,
}

/// The message shown to users for rejection `e`.
pub open spec fn message_of(e: ErrorCode) -> Seq<char> {
    match e {
        ErrorCode::Unauthorized => "Unauthorized"@,
        ErrorCode::TaskInactive => "Task is not active"@,
        ErrorCode::TaskFullyClaimed => "Task is fully claimed"@,
        ErrorCode::MathOverflow => "Math overflow"@,
        ErrorCode::TierTooLow => "Agent tier is too low for the task"@,
        ErrorCode::MissingRequiredTaskProof => "Required prerequisite task has not been completed"@,
        ErrorCode::InvalidPrerequisiteAccount => "Invalid prerequisite account provided"@,
        ErrorCode::InvalidTaskPrerequisite => "Task cannot require itself as a prerequisite"@,
        ErrorCode::InvalidInviteCode => "Invalid invite code"@,
        ErrorCode::InviteInactive => "Invite is inactive"@,
        ErrorCode::SelfReferralNotAllowed => "Self-referral is not allowed"@,
    }
}

impl ErrorCode {
    /// The message shown to users for this rejection.
    pub fn message(&self) -> (r: &'static str)
        ensures
            r@ == message_of(*self),
    {
        match self {
            ErrorCode::Unauthorized => "Unauthorized",
            ErrorCode::TaskInactive => "Task is not active",
            ErrorCode::TaskFullyClaimed => "Task is fully claimed",
            ErrorCode::MathOverflow => "Math overflow",
            ErrorCode::TierTooLow => "Agent tier is too low for the task",
            ErrorCode::MissingRequiredTaskProof => "Required prerequisite task has not been completed",
            ErrorCode::InvalidPrerequisiteAccount => "Invalid prerequisite account provided",
            ErrorCode::InvalidTaskPrerequisite => "Task cannot require itself as a prerequisite",
            ErrorCode::InvalidInviteCode => "Invalid invite code",
            ErrorCode::InviteInactive => "Invite is inactive",
            ErrorCode::SelfReferralNotAllowed => "Self-referral is not allowed",
        }
    }
}

} // verus!
