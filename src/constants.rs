use vstd::prelude::*;

verus! {

/// Sentinel meaning that a task has no prerequisite.
pub const NO_PREREQ_TASK_ID: u32 = 0xffff_ffff;

/// The schema version written into every record.
pub const ACCOUNT_LAYOUT_V1: u8 = 1;

/// Length of the reserved tail of each record kind.
pub const PROTOCOL_RESERVED_BYTES: usize = 64;
pub const AGENT_RESERVED_BYTES: usize = 88;
pub const TASK_RESERVED_BYTES: usize = 128;
pub const CLAIM_RESERVED_BYTES: usize = 64;
pub const INVITE_RESERVED_BYTES: usize = 64;

/// `n` zero bytes: the content of a fresh reserved tail.
pub open spec fn zeros(n: nat) -> Seq<u8> {
    Seq::new(n, |i: int| 0u8)
}

/// Seed prefix of each record kind, as bytes.
pub open spec fn protocol_seed() -> Seq<u8> {
    seq![112u8, 114, 111, 116, 111, 99, 111, 108]
}

pub open spec fn agent_seed() -> Seq<u8> {
    seq![97u8, 103, 101, 110, 116]
}

pub open spec fn task_seed() -> Seq<u8> {
    seq![116u8, 97, 115, 107]
}

pub open spec fn claim_seed() -> Seq<u8> {
    seq![99u8, 108, 97, 105, 109]
}

pub open spec fn invite_seed() -> Seq<u8> {
    seq![105u8, 110, 118, 105, 116, 101]
}

/// `b"protocol"`
pub fn protocol_seed_bytes() -> (r: Vec<u8>)
    ensures
        r@ == protocol_seed(),
{
    let r: Vec<u8> = vec![112u8, 114, 111, 116, 111, 99, 111, 108];
    assert(r@ =~= protocol_seed());
    r
}

/// `b"agent"`
pub fn agent_seed_bytes() -> (r: Vec<u8>)
    ensures
        r@ == agent_seed(),
{
    let r: Vec<u8> = vec![97u8, 103, 101, 110, 116];
    assert(r@ =~= agent_seed());
    r
}

/// `b"task"`
pub fn task_seed_bytes() -> (r: Vec<u8>)
    ensures
        r@ == task_seed(),
{
    let r: Vec<u8> = vec![116u8, 97, 115, 107];
    assert(r@ =~= task_seed());
    r
}

/// `b"claim"`
pub fn claim_seed_bytes() -> (r: Vec<u8>)
    ensures
        r@ == claim_seed(),
{
    let r: Vec<u8> = vec![99u8, 108, 97, 105, 109];
    assert(r@ =~= claim_seed());
    r
}

/// `b"invite"`
pub fn invite_seed_bytes() -> (r: Vec<u8>)
    ensures
        r@ == invite_seed(),
{
    let r: Vec<u8> = vec![105u8, 110, 118, 105, 116, 101];
    assert(r@ =~= invite_seed());
    r
}

} // verus!
