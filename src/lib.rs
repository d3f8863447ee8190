pub mod address;
pub mod claim_codec;
pub mod codec;
pub mod constants;
pub mod error;
pub mod instructions;
pub mod ledger;
pub mod state;

use vstd::prelude::*;
use crate::address::{
    agent_seeds, find_agent_address, find_invite_address, find_protocol_address,
    find_task_address, invite_seeds, program_address, protocol_seeds, task_seeds,
};
use crate::instructions::create_invite::{self as create_invite_ix, CreateInvite};
use crate::instructions::create_task::{self as create_task_ix, create_task_error, CreateTask};
use crate::instructions::deactivate_task::{self as deactivate_task_ix, DeactivateTask};
use crate::instructions::register_agent_with_invite::{
    self as invite_ix, invite_error, inviter_bonus, invitee_reward, RegisterAgentWithInvite,
};
use crate::ledger::{lemma_balance_sum_update, StoredClaim};
use crate::address::{claim_seeds, find_claim_address};
use crate::claim_codec::{claim_bytes, claim_discriminator, claim_discriminator_of, encode_claim};
use crate::instructions::submit_proof::{self as submit_ix, submit_rejection, SubmitProof};
use crate::state::AccountInfo;
use crate::state::{AgentAccount, InviteRecord, TaskRecord};
use crate::constants::ACCOUNT_LAYOUT_V1;
use crate::error::ErrorCode;
use crate::instructions::initialize::{self as initialize_ix, initialized_protocol, Initialize};
use crate::instructions::register_agent::{self as register_ix, fresh_agent, register_overflows, RegisterAgent};
use crate::constants::zeros;
use crate::ledger::{bump_of, lemma_balance_sum_push, Ledger, TxError};
use crate::state::{Key, ProtocolState};

verus! {

/// The records other than the protocol and the agents are as they were.
pub open spec fn others_unchanged_but_agents(pre: Ledger, post: Ledger) -> bool {
    &&& post.program_id == pre.program_id
    &&& post.tasks == pre.tasks
    &&& post.claims == pre.claims
    &&& post.invites == pre.invites
}

/// Creates the protocol singleton, with `authority` as its administrator.
pub fn initialize(ledger: &mut Ledger, authority: Key, base_reward_unit: u64) -> (r: Result<
    (),
    TxError,
>)
    requires
        old(ledger).wf(),
    ensures
        final(ledger).wf(),
        r is Err ==> *final(ledger) == *old(ledger),
        old(ledger).protocol is Some ==> r == Err::<(), TxError>(TxError::AccountInUse),
        old(ledger).protocol is None && program_address(protocol_seeds(), old(ledger).program_id@)
            is None ==> r == Err::<(), TxError>(TxError::AddressUnavailable),
        old(ledger).protocol is None && program_address(protocol_seeds(), old(ledger).program_id@)
            is Some ==> r is Ok,
        r is Ok ==> {
            &&& (final(ledger).protocol matches Some(p) && initialized_protocol(
                Initialize {
                    authority,
                    protocol_bump: bump_of(
                        program_address(protocol_seeds(), old(ledger).program_id@),
                    ),
                },
                base_reward_unit,
                p,
            ))
            &&& others_unchanged_but_agents(*old(ledger), *final(ledger))
            &&& final(ledger).agents == old(ledger).agents
        },
{
    if ledger.protocol.is_some() {
        return Err(TxError::AccountInUse);
    }
    let bump = match find_protocol_address(&ledger.program_id) {
        None => { return Err(TxError::AddressUnavailable); },
        Some((_, b)) => b,
    };
    let ctx = Initialize { authority, protocol_bump: bump };
    let p = initialize_ix::handler(&ctx, base_reward_unit);
    ledger.protocol = Some(p);
    Ok(())
}

/// Registers the caller `agent` with the base reward as opening balance.
pub fn register_agent(ledger: &mut Ledger, agent: Key, now: i64) -> (r: Result<(), TxError>)
    requires
        old(ledger).wf(),
    ensures
        final(ledger).wf(),
        r is Err ==> *final(ledger) == *old(ledger),
        old(ledger).protocol is None ==> r == Err::<(), TxError>(TxError::AccountNotFound),
        old(ledger).protocol is Some && old(ledger).has_agent(agent@) ==> r == Err::<(), TxError>(
            TxError::AccountInUse,
        ),
        old(ledger).protocol matches Some(p) ==> !old(ledger).has_agent(agent@) ==> {
            let d = program_address(agent_seeds(agent@), old(ledger).program_id@);
            &&& d is None ==> r == Err::<(), TxError>(TxError::AddressUnavailable)
            &&& d is Some && register_overflows(p) ==> r == Err::<(), TxError>(
                TxError::Program(ErrorCode::MathOverflow),
            )
            &&& d is Some && !register_overflows(p) ==> r is Ok
        },
        r is Ok ==> (old(ledger).protocol matches Some(p) && {
            let a = final(ledger).agents@.last();
            &&& final(ledger).agents@ == old(ledger).agents@.push(a)
            &&& fresh_agent(
                a,
                bump_of(program_address(agent_seeds(agent@), old(ledger).program_id@)),
                agent,
                p.base_reward_unit,
                now,
            )
            &&& a.invites_redeemed == 0
            &&& a.invited_by@ == zeros(32)
            &&& final(ledger).protocol == Some(
                ProtocolState {
                    total_agents: (p.total_agents + 1) as u32,
                    total_clips_distributed: (p.total_clips_distributed
                        + p.base_reward_unit) as u64,
                    ..p
                },
            )
            &&& others_unchanged_but_agents(*old(ledger), *final(ledger))
        }),
{
    let protocol = match ledger.protocol {
        None => { return Err(TxError::AccountNotFound); },
        Some(p) => p,
    };
    if ledger.find_agent(&agent).is_some() {
        return Err(TxError::AccountInUse);
    }
    let bump = match find_agent_address(&ledger.program_id, &agent) {
        None => { return Err(TxError::AddressUnavailable); },
        Some((_, b)) => b,
    };
    let mut ctx = RegisterAgent { protocol, agent, agent_bump: bump, now };
    let a = match register_ix::handler(&mut ctx) {
        Err(e) => { return Err(TxError::Program(e)); },
        Ok(a) => a,
    };
    proof {
        lemma_balance_sum_push(ledger.agents@, a);
    }
    ledger.protocol = Some(ctx.protocol);
    ledger.agents.push(a);
    Ok(())
}

/// The invite-path registration context that the ledger builds from the
/// inviter's records at positions `k` and `m`.
pub open spec fn invite_context(
    l: Ledger,
    p: ProtocolState,
    k: int,
    m: int,
    agent: Key,
    now: i64,
) -> RegisterAgentWithInvite {
    RegisterAgentWithInvite {
        protocol: p,
        inviter_agent: l.agents@[k],
        invite_record: l.invites@[m],
        agent,
        agent_bump: bump_of(program_address(agent_seeds(agent@), l.program_id@)),
        now,
    }
}

/// Registers the caller `agent` through the invite of `inviter`.
/// Self-referral is refused before anything else is looked at.
pub fn register_agent_with_invite(
    ledger: &mut Ledger,
    agent: Key,
    inviter: Key,
    invite_code: [u8; 32],
    now: i64,
) -> (r: Result<(), TxError>)
    requires
        old(ledger).wf(),
    ensures
        final(ledger).wf(),
        r is Err ==> *final(ledger) == *old(ledger),
        old(ledger).protocol is None ==> r == Err::<(), TxError>(TxError::AccountNotFound),
        old(ledger).protocol is Some && agent@ == inviter@ ==> r == Err::<(), TxError>(
            TxError::Program(ErrorCode::SelfReferralNotAllowed),
        ),
        old(ledger).protocol is Some && agent@ != inviter@ && old(ledger).has_agent(agent@) ==> r
            == Err::<(), TxError>(TxError::AccountInUse),
        old(ledger).protocol is Some && agent@ != inviter@ && !old(ledger).has_agent(agent@) && (
        !old(ledger).has_agent(inviter@) || !old(ledger).has_invite(inviter@)) ==> r == Err::<
            (),
            TxError,
        >(TxError::AccountNotFound),
        old(ledger).protocol is Some && agent@ != inviter@ && !old(ledger).has_agent(agent@)
            && program_address(agent_seeds(agent@), old(ledger).program_id@) is None
            && old(ledger).has_agent(inviter@) && old(ledger).has_invite(inviter@) ==> r == Err::<
            (),
            TxError,
        >(TxError::AddressUnavailable),
        forall|k: int, m: int|
            #![trigger old(ledger).agents@[k], old(ledger).invites@[m]]
            old(ledger).protocol is Some && agent@ != inviter@ && !old(ledger).has_agent(agent@)
                && program_address(agent_seeds(agent@), old(ledger).program_id@) is Some && 0 <= k
                < old(ledger).agents@.len() && old(ledger).agents@[k].wallet@ == inviter@ && 0
                <= m < old(ledger).invites@.len() && old(ledger).invites@[m].inviter_wallet@
                == inviter@ ==> {
                let ctx = invite_context(
                    *old(ledger),
                    old(ledger).protocol->Some_0,
                    k,
                    m,
                    agent,
                    now,
                );
                let p = old(ledger).protocol->Some_0;
                let base = p.base_reward_unit;
                &&& invite_error(ctx, invite_code@) matches Some(e) ==> r == Err::<(), TxError>(
                    TxError::Program(e),
                )
                &&& invite_error(ctx, invite_code@) is None ==> r is Ok
                &&& r is Ok ==> {
                    let a = final(ledger).agents@.last();
                    &&& final(ledger).agents@ == old(ledger).agents@.update(
                        k,
                        AgentAccount {
                            clips_balance: (ctx.inviter_agent.clips_balance + inviter_bonus(
                                base,
                            )) as u64,
                            invites_sent: (ctx.inviter_agent.invites_sent + 1) as u32,
                            last_active_at: now,
                            ..ctx.inviter_agent
                        },
                    ).push(a)
                    &&& fresh_agent(a, ctx.agent_bump, agent, invitee_reward(base) as u64, now)
                    &&& a.invites_redeemed == 1
                    &&& a.invited_by == ctx.inviter_agent.wallet
                    &&& final(ledger).invites@ == old(ledger).invites@.update(
                        m,
                        InviteRecord {
                            invites_redeemed: (ctx.invite_record.invites_redeemed + 1) as u32,
                            ..ctx.invite_record
                        },
                    )
                    &&& final(ledger).protocol == Some(
                        ProtocolState {
                            total_agents: (p.total_agents + 1) as u32,
                            total_clips_distributed: (p.total_clips_distributed + invitee_reward(
                                base,
                            ) + inviter_bonus(base)) as u64,
                            ..p
                        },
                    )
                    &&& final(ledger).program_id == old(ledger).program_id
                    &&& final(ledger).tasks == old(ledger).tasks
                    &&& final(ledger).claims == old(ledger).claims
                }
            },
{
    let protocol = match ledger.protocol {
        None => { return Err(TxError::AccountNotFound); },
        Some(p) => p,
    };
    if crate::state::keys_eq(&agent, &inviter) {
        return Err(TxError::Program(ErrorCode::SelfReferralNotAllowed));
    }
    if ledger.find_agent(&agent).is_some() {
        return Err(TxError::AccountInUse);
    }
    let k = match ledger.find_agent(&inviter) {
        None => { return Err(TxError::AccountNotFound); },
        Some(k) => k,
    };
    let m = match ledger.find_invite(&inviter) {
        None => { return Err(TxError::AccountNotFound); },
        Some(m) => m,
    };
    let bump = match find_agent_address(&ledger.program_id, &agent) {
        None => { return Err(TxError::AddressUnavailable); },
        Some((_, b)) => b,
    };
    let mut ctx = RegisterAgentWithInvite {
        protocol,
        inviter_agent: ledger.agents[k],
        invite_record: ledger.invites[m],
        agent,
        agent_bump: bump,
        now,
    };
    let ghost pre = ctx;
    assert(pre == invite_context(*ledger, protocol, k as int, m as int, agent, now));
    let a = match invite_ix::handler(&mut ctx, invite_code) {
        Err(e) => { return Err(TxError::Program(e)); },
        Ok(a) => a,
    };
    proof {
        lemma_balance_sum_update(ledger.agents@, k as int, ctx.inviter_agent);
        lemma_balance_sum_push(ledger.agents@.update(k as int, ctx.inviter_agent), a);
    }
    ledger.protocol = Some(ctx.protocol);
    ledger.agents.set(k, ctx.inviter_agent);
    ledger.invites.set(m, ctx.invite_record);
    ledger.agents.push(a);
    Ok(())
}

/// Opens the invite slot of the registered caller `agent`.
pub fn create_invite(ledger: &mut Ledger, agent: Key, now: i64) -> (r: Result<(), TxError>)
    requires
        old(ledger).wf(),
    ensures
        final(ledger).wf(),
        r is Err ==> *final(ledger) == *old(ledger),
        old(ledger).protocol is None || !old(ledger).has_agent(agent@) ==> r == Err::<(), TxError>(
            TxError::AccountNotFound,
        ),
        old(ledger).protocol is Some && old(ledger).has_agent(agent@) && old(ledger).has_invite(
            agent@,
        ) ==> r == Err::<(), TxError>(TxError::AccountInUse),
        old(ledger).protocol is Some && old(ledger).has_agent(agent@) && !old(ledger).has_invite(
            agent@,
        ) ==> {
            let d = program_address(invite_seeds(agent@), old(ledger).program_id@);
            &&& d is None ==> r == Err::<(), TxError>(TxError::AddressUnavailable)
            &&& d is Some ==> r is Ok
        },
        r is Ok ==> {
            let i = final(ledger).invites@.last();
            &&& final(ledger).invites@ == old(ledger).invites@.push(i)
            &&& i.bump == bump_of(program_address(invite_seeds(agent@), old(ledger).program_id@))
            &&& i.layout_version == ACCOUNT_LAYOUT_V1
            &&& i.inviter_wallet == agent
            &&& i.invite_code == agent
            &&& i.invites_redeemed == 0
            &&& i.created_at == now
            &&& i.is_active
            &&& final(ledger).program_id == old(ledger).program_id
            &&& final(ledger).protocol == old(ledger).protocol
            &&& final(ledger).agents == old(ledger).agents
            &&& final(ledger).tasks == old(ledger).tasks
            &&& final(ledger).claims == old(ledger).claims
        },
{
    if ledger.protocol.is_none() {
        return Err(TxError::AccountNotFound);
    }
    let k = match ledger.find_agent(&agent) {
        None => { return Err(TxError::AccountNotFound); },
        Some(k) => k,
    };
    if ledger.find_invite(&agent).is_some() {
        return Err(TxError::AccountInUse);
    }
    let bump = match find_invite_address(&ledger.program_id, &agent) {
        None => { return Err(TxError::AddressUnavailable); },
        Some((_, b)) => b,
    };
    let ctx = CreateInvite { agent_account: ledger.agents[k], agent, invite_bump: bump, now };
    let i = match create_invite_ix::handler(&ctx) {
        Err(e) => { return Err(TxError::Program(e)); },
        Ok(i) => i,
    };
    ledger.invites.push(i);
    Ok(())
}

/// Publishes task `task_id` on behalf of `authority`.
pub fn create_task(
    ledger: &mut Ledger,
    authority: Key,
    task_id: u32,
    title: [u8; 32],
    content_cid: [u8; 64],
    reward_clips: u64,
    max_claims: u16,
    min_tier: u8,
    required_task_id: u32,
    now: i64,
) -> (r: Result<(), TxError>)
    requires
        old(ledger).wf(),
    ensures
        final(ledger).wf(),
        r is Err ==> *final(ledger) == *old(ledger),
        old(ledger).protocol is None ==> r == Err::<(), TxError>(TxError::AccountNotFound),
        old(ledger).protocol matches Some(p) ==> {
            let d = program_address(task_seeds(task_id), old(ledger).program_id@);
            let ctx = CreateTask { protocol: p, authority, task_bump: bump_of(d), now };
            &&& p.authority@ != authority@ ==> r == Err::<(), TxError>(
                TxError::Program(ErrorCode::Unauthorized),
            )
            &&& p.authority@ == authority@ && old(ledger).has_task(task_id) ==> r == Err::<
                (),
                TxError,
            >(TxError::AccountInUse)
            &&& p.authority@ == authority@ && !old(ledger).has_task(task_id) && d is None ==> r
                == Err::<(), TxError>(TxError::AddressUnavailable)
            &&& p.authority@ == authority@ && !old(ledger).has_task(task_id) && d is Some ==> {
                &&& create_task_error(ctx, task_id, required_task_id) matches Some(e) ==> r
                    == Err::<(), TxError>(TxError::Program(e))
                &&& create_task_error(ctx, task_id, required_task_id) is None ==> r is Ok
            }
            &&& r is Ok ==> {
                let t = final(ledger).tasks@.last();
                &&& final(ledger).tasks@ == old(ledger).tasks@.push(t)
                &&& t.bump == bump_of(d)
                &&& t.task_id == task_id
                &&& t.creator == authority
                &&& t.title == title
                &&& t.content_cid == content_cid
                &&& t.reward_clips == reward_clips
                &&& t.max_claims == max_claims
                &&& t.current_claims == 0
                &&& t.is_active
                &&& t.created_at == now
                &&& t.min_tier == min_tier
                &&& t.required_task_id == required_task_id
                &&& final(ledger).protocol == Some(
                    ProtocolState { total_tasks: (p.total_tasks + 1) as u32, ..p },
                )
                &&& final(ledger).program_id == old(ledger).program_id
                &&& final(ledger).agents == old(ledger).agents
                &&& final(ledger).claims == old(ledger).claims
                &&& final(ledger).invites == old(ledger).invites
            }
        },
{
    let protocol = match ledger.protocol {
        None => { return Err(TxError::AccountNotFound); },
        Some(p) => p,
    };
    if !crate::state::keys_eq(&protocol.authority, &authority) {
        return Err(TxError::Program(ErrorCode::Unauthorized));
    }
    if ledger.find_task(task_id).is_some() {
        return Err(TxError::AccountInUse);
    }
    let bump = match find_task_address(&ledger.program_id, task_id) {
        None => { return Err(TxError::AddressUnavailable); },
        Some((_, b)) => b,
    };
    let mut ctx = CreateTask { protocol, authority, task_bump: bump, now };
    let t = match create_task_ix::handler(
        &mut ctx,
        task_id,
        title,
        content_cid,
        reward_clips,
        max_claims,
        min_tier,
        required_task_id,
    ) {
        Err(e) => { return Err(TxError::Program(e)); },
        Ok(t) => t,
    };
    ledger.protocol = Some(ctx.protocol);
    ledger.tasks.push(t);
    Ok(())
}

/// Marks task `task_id` inactive on behalf of `authority`.
pub fn deactivate_task(ledger: &mut Ledger, authority: Key, task_id: u32) -> (r: Result<
    (),
    TxError,
>)
    requires
        old(ledger).wf(),
    ensures
        final(ledger).wf(),
        r is Err ==> *final(ledger) == *old(ledger),
        old(ledger).protocol is None ==> r == Err::<(), TxError>(TxError::AccountNotFound),
        old(ledger).protocol matches Some(p) ==> {
            &&& p.authority@ != authority@ ==> r == Err::<(), TxError>(
                TxError::Program(ErrorCode::Unauthorized),
            )
            &&& p.authority@ == authority@ && !old(ledger).has_task(task_id) ==> r == Err::<
                (),
                TxError,
            >(TxError::AccountNotFound)
            &&& p.authority@ == authority@ && old(ledger).has_task(task_id) ==> r is Ok
        },
        r is Ok ==> {
            &&& final(ledger).tasks@.len() == old(ledger).tasks@.len()
            &&& forall|i: int|
                0 <= i < old(ledger).tasks@.len() ==> #[trigger] final(ledger).tasks@[i] == if old(
                    ledger,
                ).tasks@[i].task_id == task_id {
                    TaskRecord { is_active: false, ..old(ledger).tasks@[i] }
                } else {
                    old(ledger).tasks@[i]
                }
            &&& final(ledger).program_id == old(ledger).program_id
            &&& final(ledger).protocol == old(ledger).protocol
            &&& final(ledger).agents == old(ledger).agents
            &&& final(ledger).claims == old(ledger).claims
            &&& final(ledger).invites == old(ledger).invites
        },
{
    let protocol = match ledger.protocol {
        None => { return Err(TxError::AccountNotFound); },
        Some(p) => p,
    };
    if !crate::state::keys_eq(&protocol.authority, &authority) {
        return Err(TxError::Program(ErrorCode::Unauthorized));
    }
    let i = match ledger.find_task(task_id) {
        None => { return Err(TxError::AccountNotFound); },
        Some(i) => i,
    };
    let mut ctx = DeactivateTask { protocol, task: ledger.tasks[i], authority };
    if let Err(e) = deactivate_task_ix::handler(&mut ctx, task_id) {
        return Err(TxError::Program(e));
    }
    ledger.tasks.set(i, ctx.task);
    Ok(())
}

/// The view of the account that a prerequisite reference to `address`
/// resolves to: the stored claim there, owned by the program, or else an
/// empty account of the system program.
pub open spec fn resolved_reference(l: Ledger, address: Option<Key>) -> Option<
    (Seq<u8>, Seq<u8>, Seq<u8>),
> {
    match address {
        None => None,
        Some(a) => match l.claim_at(a@) {
            Some(c) => Some((a@, l.program_id@, claim_bytes(c, claim_discriminator_of()))),
            None => Some((a@, zeros(32), Seq::empty())),
        },
    }
}

/// Resolves a prerequisite reference against the stored claims.
fn resolve_reference(ledger: &Ledger, address: Option<Key>) -> (r: Option<AccountInfo>)
    requires
        ledger.wf(),
    ensures
        crate::instructions::submit_proof::account_view(r) == resolved_reference(*ledger, address),
{
    match address {
        None => None,
        Some(a) => match ledger.find_claim_at(&a) {
            Some(i) => {
                let data = encode_claim(&ledger.claims[i].record, &claim_discriminator());
                proof {
                    let j = choose|j: int|
                        0 <= j < ledger.claims@.len() && ledger.claims@[j].address@ == a@;
                    assert(j == i as int);
                }
                Some(AccountInfo { key: a, owner: ledger.program_id, data })
            },
            None => {
                let owner = [0u8; 32];
                assert(owner@ =~= zeros(32));
                let data: Vec<u8> = Vec::new();
                assert(data@ =~= Seq::<u8>::empty());
                Some(AccountInfo { key: a, owner, data })
            },
        },
    }
}

/// Records that the caller `agent` completed task `task_id`, with
/// `prerequisite` the address of the caller's claim on the task's
/// prerequisite, where it has one. Once a submission for a (task, agent) pair
/// is accepted the pair holds a claim, so every later submission for it is
/// refused with `AccountInUse` and changes nothing.
pub fn submit_proof(
    ledger: &mut Ledger,
    agent: Key,
    task_id: u32,
    proof_cid: [u8; 64],
    prerequisite: Option<Key>,
    now: i64,
) -> (r: Result<(), TxError>)
    requires
        old(ledger).wf(),
    ensures
        final(ledger).wf(),
        r is Err ==> *final(ledger) == *old(ledger),
        r is Ok ==> final(ledger).has_claim(task_id, agent@),
        old(ledger).protocol is None || !old(ledger).has_task(task_id) || !old(ledger).has_agent(
            agent@,
        ) ==> r == Err::<(), TxError>(TxError::AccountNotFound),
        old(ledger).protocol is Some && old(ledger).has_task(task_id) && old(ledger).has_agent(
            agent@,
        ) && old(ledger).has_claim(task_id, agent@) ==> r == Err::<(), TxError>(
            TxError::AccountInUse,
        ),
        old(ledger).protocol is Some && old(ledger).has_task(task_id) && old(ledger).has_agent(
            agent@,
        ) && !old(ledger).has_claim(task_id, agent@) && program_address(
            claim_seeds(task_id, agent@),
            old(ledger).program_id@,
        ) is None ==> r == Err::<(), TxError>(TxError::AddressUnavailable),
        forall|i: int, j: int|
            #![trigger old(ledger).tasks@[i], old(ledger).agents@[j]]
            old(ledger).protocol is Some && 0 <= i < old(ledger).tasks@.len() && old(
                ledger,
            ).tasks@[i].task_id == task_id && 0 <= j < old(ledger).agents@.len() && old(
                ledger,
            ).agents@[j].wallet@ == agent@ && !old(ledger).has_claim(task_id, agent@)
                && program_address(claim_seeds(task_id, agent@), old(ledger).program_id@) is Some
                ==> {
                let (addr, bump) = program_address(
                    claim_seeds(task_id, agent@),
                    old(ledger).program_id@,
                )->Some_0;
                let p = old(ledger).protocol->Some_0;
                let t = old(ledger).tasks@[i];
                let a = old(ledger).agents@[j];
                let rejection = submit_rejection(
                    p,
                    t,
                    a,
                    agent@,
                    old(ledger).program_id@,
                    resolved_reference(*old(ledger), prerequisite),
                );
                &&& old(ledger).claim_at(addr) is Some ==> r == Err::<(), TxError>(
                    TxError::AccountInUse,
                )
                &&& old(ledger).claim_at(addr) is None && rejection is Some ==> r == Err::<
                    (),
                    TxError,
                >(TxError::Program(rejection->Some_0))
                &&& old(ledger).claim_at(addr) is None && rejection is None ==> r is Ok
                &&& r is Ok ==> {
                    let sc = final(ledger).claims@.last();
                    &&& final(ledger).tasks@ == old(ledger).tasks@.update(
                        i,
                        TaskRecord { current_claims: (t.current_claims + 1) as u16, ..t },
                    )
                    &&& final(ledger).agents@ == old(ledger).agents@.update(
                        j,
                        AgentAccount {
                            clips_balance: (a.clips_balance + t.reward_clips) as u64,
                            tasks_completed: (a.tasks_completed + 1) as u32,
                            last_active_at: now,
                            ..a
                        },
                    )
                    &&& final(ledger).protocol == Some(
                        ProtocolState {
                            total_clips_distributed: (p.total_clips_distributed
                                + t.reward_clips) as u64,
                            ..p
                        },
                    )
                    &&& final(ledger).claims@ == old(ledger).claims@.push(sc)
                    &&& sc.address@ == addr
                    &&& sc.record.bump == bump
                    &&& sc.record.layout_version == ACCOUNT_LAYOUT_V1
                    &&& sc.record.task_id == task_id
                    &&& sc.record.agent == agent
                    &&& sc.record.proof_cid == proof_cid
                    &&& sc.record.clips_awarded == t.reward_clips
                    &&& sc.record.completed_at == now
                    &&& sc.record.reserved@ == zeros(64)
                    &&& final(ledger).program_id == old(ledger).program_id
                    &&& final(ledger).invites == old(ledger).invites
                }
            },
{
    let protocol = match ledger.protocol {
        None => { return Err(TxError::AccountNotFound); },
        Some(p) => p,
    };
    let i = match ledger.find_task(task_id) {
        None => { return Err(TxError::AccountNotFound); },
        Some(i) => i,
    };
    let j = match ledger.find_agent(&agent) {
        None => { return Err(TxError::AccountNotFound); },
        Some(j) => j,
    };
    if ledger.find_claim(task_id, &agent).is_some() {
        return Err(TxError::AccountInUse);
    }
    let (address, bump) = match find_claim_address(&ledger.program_id, task_id, &agent) {
        None => { return Err(TxError::AddressUnavailable); },
        Some(d) => d,
    };
    if ledger.find_claim_at(&address).is_some() {
        return Err(TxError::AccountInUse);
    }
    let reference = resolve_reference(ledger, prerequisite);
    let mut ctx = SubmitProof {
        protocol,
        task: ledger.tasks[i],
        agent_account: ledger.agents[j],
        agent,
        program_id: ledger.program_id,
        claim_bump: bump,
        now,
        prerequisite: reference,
    };
    let c = match submit_ix::handler(&mut ctx, task_id, proof_cid) {
        Err(e) => { return Err(TxError::Program(e)); },
        Ok(c) => c,
    };
    proof {
        lemma_balance_sum_update(ledger.agents@, j as int, ctx.agent_account);
    }
    ledger.protocol = Some(ctx.protocol);
    ledger.tasks.set(i, ctx.task);
    ledger.agents.set(j, ctx.agent_account);
    ledger.claims.push(StoredClaim { address, record: c });
    assert(ledger.claims@[ledger.claims@.len() - 1].record.task_id == task_id);
    Ok(())
}

} // verus!
