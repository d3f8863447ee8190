use vstd::prelude::*;
use anchor_lang::solana_program::hash::hash;
use anchor_lang::solana_program::pubkey::Pubkey;
use crate::codec::{le_u32, u32_to_le};
use crate::constants::{
    agent_seed, agent_seed_bytes, claim_seed, claim_seed_bytes, invite_seed, invite_seed_bytes,
    protocol_seed, protocol_seed_bytes, task_seed, task_seed_bytes,
};
use crate::state::Key;

verus! {

/// The program address, with its bump byte, that the runtime derives from
/// `seeds` under `program_id`; `None` where no bump yields an address off the
/// curve, or where the seeds exceed the runtime's limits.
pub uninterp spec fn program_address(seeds: Seq<Seq<u8>>, program_id: Seq<u8>) -> Option<(Seq<u8>, u8)>;

/// The SHA-256 digest of `data`.
pub uninterp spec fn sha256_of(data: Seq<u8>) -> Seq<u8>;

/// The plain view of a derivation result.
pub open spec fn derivation_view(r: Option<(Key, u8)>) -> Option<(Seq<u8>, u8)> {
    match r {
        Some((a, b)) => Some((a@, b)),
        None => None,
    }
}

/// The views of a list of seeds.
pub open spec fn seeds_view(seeds: Seq<Vec<u8>>) -> Seq<Seq<u8>> {
    seeds.map_values(|s: Vec<u8>| s@)
}

/// Relies on solana_program's `Pubkey::try_find_program_address`, which probes
/// bump seeds from 255 down and returns the first address off the curve,
/// depending on the seeds and the program id alone.
#[verifier::external_body]
fn try_find_program_address(seeds: &Vec<Vec<u8>>, program_id: &Key) -> (r: Option<(Key, u8)>)
    ensures
        derivation_view(r) == program_address(seeds_view(seeds@), program_id@),
{
    let refs: Vec<&[u8]> = seeds.iter().map(|s| s.as_slice()).collect();
    Pubkey::try_find_program_address(&refs, &Pubkey::new_from_array(*program_id)).map(
        |(a, b)| (a.to_bytes(), b),
    )
}

/// Relies on solana_program's `hash::hash`: the SHA-256 digest of its input,
/// always 32 bytes.
#[verifier::external_body]
pub(crate) fn sha256(data: &Vec<u8>) -> (r: [u8; 32])
    ensures
        r@ == sha256_of(data@),
{
    hash(data.as_slice()).to_bytes()
}

/// Seeds of the claim record of `agent` for task `task_id`.
pub open spec fn claim_seeds(task_id: u32, agent: Seq<u8>) -> Seq<Seq<u8>> {
    seq![claim_seed(), le_u32(task_id), agent]
}

fn key_bytes(k: &Key) -> (r: Vec<u8>)
    ensures
        r@ == k@,
{
    let mut out: Vec<u8> = Vec::new();
    let mut j: usize = 0;
    while j < 32
        invariant
            0 <= j <= 32,
            k@.len() == 32,
            out@ == k@.subrange(0, j as int),
        decreases 32 - j,
    {
        out.push(k[j]);
        j = j + 1;
        assert(out@ =~= k@.subrange(0, j as int));
    }
    assert(out@ =~= k@);
    out
}

fn task_id_bytes(task_id: u32) -> (r: Vec<u8>)
    ensures
        r@ == le_u32(task_id),
{
    let b = u32_to_le(task_id);
    let r: Vec<u8> = vec![b[0], b[1], b[2], b[3]];
    assert(r@ =~= le_u32(task_id));
    r
}

/// Seeds of the protocol singleton.
pub open spec fn protocol_seeds() -> Seq<Seq<u8>> {
    seq![protocol_seed()]
}

/// Seeds of the agent record of `wallet`.
pub open spec fn agent_seeds(wallet: Seq<u8>) -> Seq<Seq<u8>> {
    seq![agent_seed(), wallet]
}

/// Seeds of the record of task `task_id`.
pub open spec fn task_seeds(task_id: u32) -> Seq<Seq<u8>> {
    seq![task_seed(), le_u32(task_id)]
}

/// Seeds of the invite record of `inviter`.
pub open spec fn invite_seeds(inviter: Seq<u8>) -> Seq<Seq<u8>> {
    seq![invite_seed(), inviter]
}

/// Derives the address of the protocol singleton.
pub fn find_protocol_address(program_id: &Key) -> (r: Option<(Key, u8)>)
    ensures
        derivation_view(r) == program_address(protocol_seeds(), program_id@),
{
    let mut seeds: Vec<Vec<u8>> = Vec::new();
    seeds.push(protocol_seed_bytes());
    assert(seeds_view(seeds@) =~= protocol_seeds());
    try_find_program_address(&seeds, program_id)
}

/// Derives the address of the agent record of `wallet`.
pub fn find_agent_address(program_id: &Key, wallet: &Key) -> (r: Option<(Key, u8)>)
    ensures
        derivation_view(r) == program_address(agent_seeds(wallet@), program_id@),
{
    let mut seeds: Vec<Vec<u8>> = Vec::new();
    seeds.push(agent_seed_bytes());
    seeds.push(key_bytes(wallet));
    assert(seeds_view(seeds@) =~= agent_seeds(wallet@));
    try_find_program_address(&seeds, program_id)
}

/// Derives the address of the record of task `task_id`.
pub fn find_task_address(program_id: &Key, task_id: u32) -> (r: Option<(Key, u8)>)
    ensures
        derivation_view(r) == program_address(task_seeds(task_id), program_id@),
{
    let mut seeds: Vec<Vec<u8>> = Vec::new();
    seeds.push(task_seed_bytes());
    seeds.push(task_id_bytes(task_id));
    assert(seeds_view(seeds@) =~= task_seeds(task_id));
    try_find_program_address(&seeds, program_id)
}

/// Derives the address of the invite record of `inviter`.
pub fn find_invite_address(program_id: &Key, inviter: &Key) -> (r: Option<(Key, u8)>)
    ensures
        derivation_view(r) == program_address(invite_seeds(inviter@), program_id@),
{
    let mut seeds: Vec<Vec<u8>> = Vec::new();
    seeds.push(invite_seed_bytes());
    seeds.push(key_bytes(inviter));
    assert(seeds_view(seeds@) =~= invite_seeds(inviter@));
    try_find_program_address(&seeds, program_id)
}

/// Derives the address of the claim record of `agent` for task `task_id`.
pub fn find_claim_address(program_id: &Key, task_id: u32, agent: &Key) -> (r: Option<(Key, u8)>)
    ensures
        derivation_view(r) == program_address(claim_seeds(task_id, agent@), program_id@),
{
    let mut seeds: Vec<Vec<u8>> = Vec::new();
    seeds.push(claim_seed_bytes());
    seeds.push(task_id_bytes(task_id));
    seeds.push(key_bytes(agent));
    assert(seeds_view(seeds@) =~= claim_seeds(task_id, agent@));
    try_find_program_address(&seeds, program_id)
}

} // verus!
