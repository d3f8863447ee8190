use vstd::prelude::*;
use crate::error::ErrorCode;
use crate::state::{keys_eq, AgentAccount, ClaimRecord, InviteRecord, Key, ProtocolState, TaskRecord};

verus! {

/// A claim record together with the derived address it is stored at.
#[derive(Clone, Copy, Debug)]
pub struct StoredClaim {
    pub address: Key,
    pub record: ClaimRecord,
}

/// Why a transition over the ledger was refused. Every refusal leaves the
/// ledger as it was.
#[derive(Clone, Copy, Debug, PartialEq, Eq, Structural)]
pub enum TxError {
    /// One of the protocol's own rejections.
    Program(ErrorCode),
    /// The record that the transition would create already exists.
    AccountInUse,
    /// A record that the transition reads does not exist.
    AccountNotFound,
    /// No program address can be derived for the record's seeds.
    AddressUnavailable,
}

/// Every record of the protocol, each kind keyed by its logical key.
pub struct Ledger {
    pub program_id: Key,
    pub protocol: Option<ProtocolState>,
    pub agents: Vec<AgentAccount>,
    pub tasks: Vec<TaskRecord>,
    pub claims: Vec<StoredClaim>,
    pub invites: Vec<InviteRecord>,
}

/// The bump of a derivation result.
pub open spec fn bump_of(d: Option<(Seq<u8>, u8)>) -> u8 {
    match d {
        Some((_, b)) => b,
        None => 0,
    }
}

/// The sum of the balances of `agents`.
pub open spec fn balance_sum(agents: Seq<AgentAccount>) -> int
    decreases agents.len(),
{
    if agents.len() == 0 {
        0
    } else {
        balance_sum(agents.drop_last()) + agents.last().clips_balance
    }
}

pub proof fn lemma_balance_sum_push(agents: Seq<AgentAccount>, a: AgentAccount)
    ensures
        balance_sum(agents.push(a)) == balance_sum(agents) + a.clips_balance,
{
    assert(agents.push(a).drop_last() =~= agents);
}

pub proof fn lemma_balance_sum_update(agents: Seq<AgentAccount>, i: int, a: AgentAccount)
    requires
        0 <= i < agents.len(),
    ensures
        balance_sum(agents.update(i, a)) == balance_sum(agents) - agents[i].clips_balance
            + a.clips_balance,
    decreases agents.len(),
{
    let u = agents.update(i, a);
    if i == agents.len() - 1 {
        assert(u.drop_last() =~= agents.drop_last());
    } else {
        lemma_balance_sum_update(agents.drop_last(), i, a);
        assert(u.drop_last() =~= agents.drop_last().update(i, a));
    }
}

impl Ledger {
    /// Keys are unique within each kind, and so are claim addresses; each task's claims stay within its
    /// capacity, and the protocol's counters match the records: the number of
    /// agents and tasks, and the sum of every reward credited, which is the sum
    /// of the agents' balances. Before initialization there are no records.
    pub open spec fn wf(&self) -> bool {
        &&& match self.protocol {
            Some(p) => {
                &&& p.total_agents == self.agents@.len()
                &&& p.total_tasks == self.tasks@.len()
                &&& p.total_clips_distributed == balance_sum(self.agents@)
            },
            None => {
                &&& self.agents@.len() == 0
                &&& self.tasks@.len() == 0
                &&& self.claims@.len() == 0
                &&& self.invites@.len() == 0
            },
        }
        &&& forall|i: int, j: int|
            0 <= i < j < self.agents@.len() ==> self.agents@[i].wallet@ != self.agents@[j].wallet@
        &&& forall|i: int, j: int|
            0 <= i < j < self.tasks@.len() ==> self.tasks@[i].task_id != self.tasks@[j].task_id
        &&& forall|i: int, j: int|
            0 <= i < j < self.claims@.len() ==> !(self.claims@[i].record.task_id
                == self.claims@[j].record.task_id && self.claims@[i].record.agent@
                == self.claims@[j].record.agent@)
        &&& forall|i: int, j: int|
            0 <= i < j < self.claims@.len() ==> self.claims@[i].address@
                != self.claims@[j].address@
        &&& forall|i: int, j: int|
            0 <= i < j < self.invites@.len() ==> self.invites@[i].inviter_wallet@
                != self.invites@[j].inviter_wallet@
        &&& forall|i: int|
            0 <= i < self.tasks@.len() ==> self.tasks@[i].current_claims
                <= self.tasks@[i].max_claims
    }

    /// An empty ledger for the program `program_id`.
    pub fn new(program_id: Key) -> (r: Ledger)
        ensures
            r.wf(),
            r.program_id == program_id,
            r.protocol is None,
    {
        Ledger {
            program_id,
            protocol: None,
            agents: Vec::new(),
            tasks: Vec::new(),
            claims: Vec::new(),
            invites: Vec::new(),
        }
    }

    /// There is an agent record of `wallet`.
    pub open spec fn has_agent(&self, wallet: Seq<u8>) -> bool {
        exists|i: int| 0 <= i < self.agents@.len() && self.agents@[i].wallet@ == wallet
    }

    /// There is a record of task `task_id`.
    pub open spec fn has_task(&self, task_id: u32) -> bool {
        exists|i: int| 0 <= i < self.tasks@.len() && self.tasks@[i].task_id == task_id
    }

    /// There is a claim of `agent` on task `task_id`.
    pub open spec fn has_claim(&self, task_id: u32, agent: Seq<u8>) -> bool {
        exists|i: int|
            0 <= i < self.claims@.len() && self.claims@[i].record.task_id == task_id
                && self.claims@[i].record.agent@ == agent
    }

    /// The claim stored at `address`, if any.
    pub open spec fn claim_at(&self, address: Seq<u8>) -> Option<ClaimRecord> {
        if exists|i: int| 0 <= i < self.claims@.len() && self.claims@[i].address@ == address {
            Some(
                self.claims@[choose|i: int|
                    0 <= i < self.claims@.len() && self.claims@[i].address@ == address].record,
            )
        } else {
            None
        }
    }

    /// There is an invite record of `inviter`.
    pub open spec fn has_invite(&self, inviter: Seq<u8>) -> bool {
        exists|i: int| 0 <= i < self.invites@.len() && self.invites@[i].inviter_wallet@ == inviter
    }

    /// Position of the agent record of `wallet`.
    pub fn find_agent(&self, wallet: &Key) -> (r: Option<usize>)
        ensures
            r matches Some(i) ==> i < self.agents@.len() && self.agents@[i as int].wallet@
                == wallet@,
            r is None <==> !self.has_agent(wallet@),
    {
        let mut i: usize = 0;
        while i < self.agents.len()
            invariant
                0 <= i <= self.agents@.len(),
                forall|j: int| 0 <= j < i ==> self.agents@[j].wallet@ != wallet@,
            decreases self.agents@.len() - i,
        {
            if keys_eq(&self.agents[i].wallet, wallet) {
                return Some(i);
            }
            i = i + 1;
        }
        None
    }

    /// Position of the record of task `task_id`.
    pub fn find_task(&self, task_id: u32) -> (r: Option<usize>)
        ensures
            r matches Some(i) ==> i < self.tasks@.len() && self.tasks@[i as int].task_id
                == task_id,
            r is None <==> !self.has_task(task_id),
    {
        let mut i: usize = 0;
        while i < self.tasks.len()
            invariant
                0 <= i <= self.tasks@.len(),
                forall|j: int| 0 <= j < i ==> self.tasks@[j].task_id != task_id,
            decreases self.tasks@.len() - i,
        {
            if self.tasks[i].task_id == task_id {
                return Some(i);
            }
            i = i + 1;
        }
        None
    }

    /// Position of the claim of `agent` on task `task_id`.
    pub fn find_claim(&self, task_id: u32, agent: &Key) -> (r: Option<usize>)
        ensures
            r matches Some(i) ==> i < self.claims@.len() && self.claims@[i as int].record.task_id
                == task_id && self.claims@[i as int].record.agent@ == agent@,
            r is None <==> !self.has_claim(task_id, agent@),
    {
        let mut i: usize = 0;
        while i < self.claims.len()
            invariant
                0 <= i <= self.claims@.len(),
                forall|j: int|
                    0 <= j < i ==> !(self.claims@[j].record.task_id == task_id
                        && self.claims@[j].record.agent@ == agent@),
            decreases self.claims@.len() - i,
        {
            if self.claims[i].record.task_id == task_id && keys_eq(&self.claims[i].record.agent, agent) {
                return Some(i);
            }
            i = i + 1;
        }
        None
    }

    /// Position of the first claim stored at `address`.
    pub fn find_claim_at(&self, address: &Key) -> (r: Option<usize>)
        ensures
            r matches Some(i) ==> i < self.claims@.len() && self.claims@[i as int].address@
                == address@ && forall|j: int| 0 <= j < i ==> self.claims@[j].address@ != address@,
            r is None <==> forall|j: int|
                0 <= j < self.claims@.len() ==> self.claims@[j].address@ != address@,
    {
        let mut i: usize = 0;
        while i < self.claims.len()
            invariant
                0 <= i <= self.claims@.len(),
                forall|j: int| 0 <= j < i ==> self.claims@[j].address@ != address@,
            decreases self.claims@.len() - i,
        {
            if keys_eq(&self.claims[i].address, address) {
                return Some(i);
            }
            i = i + 1;
        }
        None
    }

    /// Position of the invite record of `inviter`.
    pub fn find_invite(&self, inviter: &Key) -> (r: Option<usize>)
        ensures
            r matches Some(i) ==> i < self.invites@.len() && self.invites@[i as int].inviter_wallet@
                == inviter@,
            r is None <==> !self.has_invite(inviter@),
    {
        let mut i: usize = 0;
        while i < self.invites.len()
            invariant
                0 <= i <= self.invites@.len(),
                forall|j: int| 0 <= j < i ==> self.invites@[j].inviter_wallet@ != inviter@,
            decreases self.invites@.len() - i,
        {
            if keys_eq(&self.invites[i].inviter_wallet, inviter) {
                return Some(i);
            }
            i = i + 1;
        }
        None
    }
}

/// Whatever transitions led to a well-formed ledger, the protocol's agent
/// count is the number of agent records, its task count the number of task
/// records, and its distributed total the sum of every reward credited, which
/// is the sum of the agents' balances.
pub proof fn lemma_counters_match_records(l: Ledger)
    requires
        l.wf(),
        l.protocol is Some,
    ensures
        l.protocol->Some_0.total_agents == l.agents@.len(),
        l.protocol->Some_0.total_tasks == l.tasks@.len(),
        l.protocol->Some_0.total_clips_distributed == balance_sum(l.agents@),
{
}

/// In a well-formed ledger no task holds more claims than its capacity, and
/// no agent holds two claims on one task.
pub proof fn lemma_claims_within_capacity(l: Ledger)
    requires
        l.wf(),
    ensures
        forall|i: int| 0 <= i < l.tasks@.len() ==> l.tasks@[i].current_claims <= l.tasks@[i].max_claims,
        forall|i: int, j: int|
            0 <= i < l.claims@.len() && 0 <= j < l.claims@.len() && i != j ==> !(
            l.claims@[i].record.task_id == l.claims@[j].record.task_id && l.claims@[i].record.agent@
                == l.claims@[j].record.agent@),
{
    assert forall|i: int, j: int|
        0 <= i < l.claims@.len() && 0 <= j < l.claims@.len() && i != j implies !(
        l.claims@[i].record.task_id == l.claims@[j].record.task_id && l.claims@[i].record.agent@
            == l.claims@[j].record.agent@) by {
        if i > j {
            assert(!(l.claims@[j].record.task_id == l.claims@[i].record.task_id
                && l.claims@[j].record.agent@ == l.claims@[i].record.agent@));
        }
    }
}

} // verus!
