use vstd::prelude::*;
use crate::address::{sha256, sha256_of};
use crate::codec::{
    i64_bits, i64_of_bits, le_i64, le_u32, le_u64, lemma_i64_round_trip, lemma_u32_round_trip,
    lemma_u64_round_trip, u32_at, u32_to_le, u64_at, u64_to_le,
};
use crate::state::ClaimRecord;

verus! {

broadcast use vstd::array::axiom_array_ext_equal;

/// Length of an encoded claim record: discriminator, fields and reserved tail.
pub const CLAIM_DATA_LEN: usize = 190;

/// `b"account:ClaimRecord"`, the text whose digest opens every claim record.
pub open spec fn claim_preimage() -> Seq<u8> {
    seq![97u8, 99, 99, 111, 117, 110, 116, 58, 67, 108, 97, 105, 109, 82, 101, 99, 111, 114, 100]
}

/// The eight bytes that mark a stored claim record.
pub open spec fn claim_discriminator_of() -> Seq<u8> {
    sha256_of(claim_preimage()).subrange(0, 8)
}

/// Computes the eight bytes that mark a stored claim record.
pub fn claim_discriminator() -> (r: [u8; 8])
    ensures
        r@ == claim_discriminator_of(),
{
    let pre: Vec<u8> = vec![97u8, 99, 99, 111, 117, 110, 116, 58, 67, 108, 97, 105, 109, 82, 101, 99, 111, 114, 100];
    assert(pre@ =~= claim_preimage());
    let digest = sha256(&pre);
    let mut r = [0u8; 8];
    let mut i: usize = 0;
    while i < 8
        invariant
            0 <= i <= 8,
            digest@.len() == 32,
            r@.len() == 8,
            forall|j: int| 0 <= j < i ==> r@[j] == digest@[j],
        decreases 8 - i,
    {
        r[i] = digest[i];
        i = i + 1;
    }
    assert(r@ =~= digest@.subrange(0, 8));
    r
}

/// The stored bytes of claim `c` under discriminator `disc`.
pub open spec fn claim_bytes(c: ClaimRecord, disc: Seq<u8>) -> Seq<u8> {
    disc + seq![c.bump, c.layout_version] + le_u32(c.task_id) + c.agent@ + c.proof_cid@ + le_u64(
        c.clips_awarded,
    ) + le_i64(c.completed_at) + c.reserved@
}

/// `data` is long enough for a claim record and opens with `disc`.
pub open spec fn is_claim_data(data: Seq<u8>, disc: Seq<u8>) -> bool {
    data.len() >= CLAIM_DATA_LEN && data.subrange(0, 8) == disc
}

/// Every field of `c` is read from its place in `data`.
pub open spec fn claim_read_from(c: ClaimRecord, data: Seq<u8>) -> bool {
    &&& c.bump == data[8]
    &&& c.layout_version == data[9]
    &&& c.task_id == u32_at(data, 10)
    &&& c.agent@ == data.subrange(14, 46)
    &&& c.proof_cid@ == data.subrange(46, 110)
    &&& c.clips_awarded == u64_at(data, 110)
    &&& c.completed_at == i64_of_bits(u64_at(data, 118))
    &&& c.reserved@ == data.subrange(126, 190)
}

fn push_bytes<const N: usize>(out: &mut Vec<u8>, a: &[u8; N])
    ensures
        final(out)@ == old(out)@ + a@,
{
    let mut i: usize = 0;
    while i < N
        invariant
            0 <= i <= N,
            a@.len() == N,
            out@ == old(out)@ + a@.subrange(0, i as int),
        decreases N - i,
    {
        out.push(a[i]);
        i = i + 1;
        assert(out@ =~= old(out)@ + a@.subrange(0, i as int));
    }
    assert(a@.subrange(0, N as int) =~= a@);
}

fn read_bytes<const N: usize>(data: &Vec<u8>, off: usize) -> (r: [u8; N])
    requires
        off <= 256,
        N <= 256,
        off + N <= data@.len(),
    ensures
        r@ == data@.subrange(off as int, off + N),
{
    let mut r = [0u8; N];
    let mut i: usize = 0;
    while i < N
        invariant
            0 <= i <= N,
            off <= 256,
            N <= 256,
            off + N <= data@.len(),
            r@.len() == N,
            forall|j: int| 0 <= j < i ==> r@[j] == data@[off + j],
        decreases N - i,
    {
        r[i] = data[off + i];
        i = i + 1;
    }
    assert(r@ =~= data@.subrange(off as int, off + N));
    r
}

fn read_u32(data: &Vec<u8>, off: usize) -> (r: u32)
    requires
        off <= 256,
        off + 4 <= data@.len(),
    ensures
        r == u32_at(data@, off as int),
{
    (data[off] as u32) | ((data[off + 1] as u32) << 8u32) | ((data[off + 2] as u32) << 16u32) | ((
    data[off + 3] as u32) << 24u32)
}

fn read_u64(data: &Vec<u8>, off: usize) -> (r: u64)
    requires
        off <= 256,
        off + 8 <= data@.len(),
    ensures
        r == u64_at(data@, off as int),
{
    (data[off] as u64) | ((data[off + 1] as u64) << 8u64) | ((data[off + 2] as u64) << 16u64) | ((
    data[off + 3] as u64) << 24u64) | ((data[off + 4] as u64) << 32u64) | ((data[off + 5] as u64)
        << 40u64) | ((data[off + 6] as u64) << 48u64) | ((data[off + 7] as u64) << 56u64)
}

/// Writes the stored bytes of claim `c` under discriminator `disc`.
pub fn encode_claim(c: &ClaimRecord, disc: &[u8; 8]) -> (r: Vec<u8>)
    ensures
        r@ == claim_bytes(*c, disc@),
{
    let mut out: Vec<u8> = Vec::new();
    push_bytes(&mut out, disc);
    out.push(c.bump);
    out.push(c.layout_version);
    push_bytes(&mut out, &u32_to_le(c.task_id));
    push_bytes(&mut out, &c.agent);
    push_bytes(&mut out, &c.proof_cid);
    push_bytes(&mut out, &u64_to_le(c.clips_awarded));
    let bits: u64 = if c.completed_at >= 0 {
        c.completed_at as u64
    } else {
        (c.completed_at as i128 + 0x1_0000_0000_0000_0000i128) as u64
    };
    assert(bits == i64_bits(c.completed_at));
    push_bytes(&mut out, &u64_to_le(bits));
    push_bytes(&mut out, &c.reserved);
    assert(out@ =~= claim_bytes(*c, disc@));
    out
}

/// Reads a claim record from stored bytes: `None` where the bytes are too
/// short or do not open with `disc`. Bytes past the record are ignored.
pub fn decode_claim(data: &Vec<u8>, disc: &[u8; 8]) -> (r: Option<ClaimRecord>)
    ensures
        r is Some <==> is_claim_data(data@, disc@),
        r matches Some(c) ==> claim_read_from(c, data@),
{
    if data.len() < CLAIM_DATA_LEN {
        return None;
    }
    let head: [u8; 8] = read_bytes(data, 0);
    let mut i: usize = 0;
    while i < 8
        invariant
            0 <= i <= 8,
            head@ == data@.subrange(0, 8),
            disc@.len() == 8,
            forall|j: int| 0 <= j < i ==> head@[j] == disc@[j],
        decreases 8 - i,
    {
        if head[i] != disc[i] {
            assert(data@.subrange(0, 8)[i as int] != disc@[i as int]);
            return None;
        }
        i = i + 1;
    }
    assert(head@ =~= disc@);
    let bits = read_u64(data, 118);
    let completed_at: i64 = if bits < 0x8000_0000_0000_0000u64 {
        bits as i64
    } else {
        (bits as i128 - 0x1_0000_0000_0000_0000i128) as i64
    };
    Some(
        ClaimRecord {
            bump: data[8],
            layout_version: data[9],
            task_id: read_u32(data, 10),
            agent: read_bytes(data, 14),
            proof_cid: read_bytes(data, 46),
            clips_awarded: read_u64(data, 110),
            completed_at,
            reserved: read_bytes(data, 126),
        },
    )
}

/// Decoding the stored bytes of a claim gives the claim back, whatever the
/// discriminator.
pub proof fn lemma_claim_round_trip(c: ClaimRecord, d: ClaimRecord, disc: Seq<u8>)
    requires
        disc.len() == 8,
        claim_read_from(d, claim_bytes(c, disc)),
    ensures
        is_claim_data(claim_bytes(c, disc), disc),
        d == c,
{
    let s = claim_bytes(c, disc);
    lemma_u32_round_trip(c.task_id);
    lemma_u64_round_trip(c.clips_awarded);
    lemma_u64_round_trip(i64_bits(c.completed_at));
    lemma_i64_round_trip(c.completed_at);
    assert(s.subrange(0, 8) =~= disc);
    assert(s.subrange(10, 14) =~= le_u32(c.task_id));
    assert(u32_at(s, 10) == u32_at(le_u32(c.task_id), 0));
    assert(s.subrange(14, 46) =~= c.agent@);
    assert(s.subrange(46, 110) =~= c.proof_cid@);
    assert(s.subrange(110, 118) =~= le_u64(c.clips_awarded));
    assert(u64_at(s, 110) == u64_at(le_u64(c.clips_awarded), 0));
    assert(s.subrange(118, 126) =~= le_i64(c.completed_at));
    assert(u64_at(s, 118) == u64_at(le_i64(c.completed_at), 0));
    assert(s.subrange(126, 190) =~= c.reserved@);
    assert(d.agent =~= c.agent);
    assert(d.proof_cid =~= c.proof_cid);
    assert(d.reserved =~= c.reserved);
}

} // verus!
