//! Shard coordinator: Raft role management over an in-memory log.
use vstd::prelude::*;
use crate::error::{ErrorCode, WcError, WcResult};

verus! {

/// Raft role of a coordinator instance.
#[derive(Debug, Clone, Copy, PartialEq, Eq, Structural, Hash)]
pub enum CoordinatorRole {
    Leader,
    Follower,
    Candidate,
}

/// An action replicated through the coordinator log.
#[derive(Debug)]
pub enum CoordinatorAction {
    AssignJob { job_id: String, donor_id: String },
    UpdateJobStatus { job_id: String, status: String },
    RegisterDonor { donor_id: String, shard_id: u32 },
    RemoveDonor { donor_id: String },
    Noop,
}

impl Clone for CoordinatorAction {
    fn clone(&self) -> (r: Self)
        ensures
            r == *self,
    {
        match self {
            CoordinatorAction::AssignJob { job_id, donor_id } => CoordinatorAction::AssignJob {
                job_id: job_id.clone(),
                donor_id: donor_id.clone(),
            },
            CoordinatorAction::UpdateJobStatus { job_id, status } =>
                CoordinatorAction::UpdateJobStatus { job_id: job_id.clone(), status: status.clone() },
            CoordinatorAction::RegisterDonor { donor_id, shard_id } =>
                CoordinatorAction::RegisterDonor { donor_id: donor_id.clone(), shard_id: *shard_id },
            CoordinatorAction::RemoveDonor { donor_id } => CoordinatorAction::RemoveDonor {
                donor_id: donor_id.clone(),
            },
            CoordinatorAction::Noop => CoordinatorAction::Noop,
        }
    }
}

/// One entry of the coordinator log.
#[derive(Debug)]
pub struct RaftLogEntry {
    /// Raft term in which the entry was created.
    pub term: u64,
    /// Position of the entry in the log.
    pub index: u64,
    /// The replicated action.
    pub action: CoordinatorAction,
}

impl Clone for RaftLogEntry {
    fn clone(&self) -> (r: Self)
        ensures
            r == *self,
    {
        RaftLogEntry { term: self.term, index: self.index, action: self.action.clone() }
    }
}

/// Entry indices strictly increase along the log.
pub open spec fn log_sorted(log: Seq<RaftLogEntry>) -> bool {
    forall|i: int, j: int| 0 <= i < j < log.len() ==> #[trigger] log[i].index < #[trigger] log[j].index
}

/// Some entry of the log carries the index.
pub open spec fn has_index(log: Seq<RaftLogEntry>, index: u64) -> bool {
    exists|i: int| 0 <= i < log.len() && #[trigger] log[i].index == index
}

/// The entry of the log that carries the index (meaningful when `has_index`).
pub open spec fn entry_at(log: Seq<RaftLogEntry>, index: u64) -> RaftLogEntry {
    log[choose|i: int| 0 <= i < log.len() && #[trigger] log[i].index == index]
}

/// Index of the last entry, or 0 for an empty log.
pub open spec fn last_index(log: Seq<RaftLogEntry>) -> u64 {
    if log.len() == 0 { 0 } else { log.last().index }
}

/// Term of the last entry, or 0 for an empty log.
pub open spec fn last_term(log: Seq<RaftLogEntry>) -> u64 {
    if log.len() == 0 { 0 } else { log.last().term }
}

/// `p` is where an entry with `index` belongs: every earlier entry has a
/// smaller index and the entry at `p`, if any, has an index at least as large.
pub open spec fn insertion_point(log: Seq<RaftLogEntry>, index: u64, p: int) -> bool {
    &&& 0 <= p <= log.len()
    &&& forall|i: int| 0 <= i < p ==> #[trigger] log[i].index < index
    &&& p < log.len() ==> log[p].index >= index
}

/// The log after appending `entry` at insertion point `p`: an entry with the
/// same index is replaced and everything after it dropped; otherwise the
/// entry is placed between its neighbours.
pub open spec fn spliced(log: Seq<RaftLogEntry>, entry: RaftLogEntry, p: int) -> Seq<RaftLogEntry> {
    if p < log.len() && log[p].index == entry.index {
        log.take(p).push(entry)
    } else {
        log.take(p).push(entry) + log.skip(p)
    }
}

/// Actions of the entries with `lo < index <= hi`, in log order.
pub open spec fn actions_in_range(log: Seq<RaftLogEntry>, lo: u64, hi: u64) -> Seq<CoordinatorAction> {
    log.filter(|e: RaftLogEntry| lo < e.index && e.index <= hi).map_values(|e: RaftLogEntry| e.action)
}

/// In-memory coordinator log with vote, commit and apply bookkeeping.
#[derive(Debug)]
pub struct RaftCoordinatorStorage {
    log: Vec<RaftLogEntry>,
    last_applied: u64,
    current_vote: Option<(u64, String)>,
    commit_index: u64,
    wal_path: Option<std::path::PathBuf>,
}

impl RaftCoordinatorStorage {
    /// The log entries in index order.
    pub closed spec fn entries(&self) -> Seq<RaftLogEntry> {
        self.log@
    }

    /// Highest index applied to the state machine.
    pub closed spec fn applied(&self) -> u64 {
        self.last_applied
    }

    /// Highest index known to be committed.
    pub closed spec fn committed(&self) -> u64 {
        self.commit_index
    }

    /// The vote recorded last, as (term, candidate).
    pub closed spec fn vote(&self) -> Option<(u64, Seq<char>)> {
        match self.current_vote {
            Some((t, c)) => Some((t, c@)),
            None => None,
        }
    }

    /// The write-ahead-log path, if one was configured.
    pub closed spec fn wal(&self) -> Option<std::path::PathBuf> {
        self.wal_path
    }

    /// Well-formedness: the log is sorted by index. Every storage value
    /// keeps it (`log_in_order`), and the methods restate it for callers.
    pub open spec fn wf(&self) -> bool {
        log_sorted(self.entries())
    }

    /// The log is kept in strictly increasing index order.
    #[verifier::type_invariant]
    spec fn log_in_order(self) -> bool {
        log_sorted(self.log@)
    }

    /// Empty storage with nothing applied, committed or voted.
    pub fn new() -> (r: RaftCoordinatorStorage)
        ensures
            r.wf(),
            r.entries().len() == 0,
            r.applied() == 0,
            r.committed() == 0,
            r.vote() is None,
            r.wal() is None,
    {
        RaftCoordinatorStorage {
            log: Vec::new(),
            last_applied: 0,
            current_vote: None,
            commit_index: 0,
            wal_path: None,
        }
    }

    /// Empty storage that records a write-ahead-log path.
    pub fn with_wal(wal_path: std::path::PathBuf) -> (r: RaftCoordinatorStorage)
        ensures
            r.wf(),
            r.entries().len() == 0,
            r.applied() == 0,
            r.committed() == 0,
            r.vote() is None,
            r.wal() == Some(wal_path),
    {
        let mut storage = Self::new();
        storage.wal_path = Some(wal_path);
        storage
    }

    /// The write-ahead-log path, if one was configured.
    pub fn wal_path(&self) -> (r: Option<&std::path::PathBuf>)
        ensures
            r matches Some(p) ==> self.wal() == Some(*p),
            r is None <==> self.wal() is None,
    {
        self.wal_path.as_ref()
    }

    /// The log entries in index order.
    pub fn log_entries(&self) -> (r: &Vec<RaftLogEntry>)
        ensures
            r@ == self.entries(),
    {
        &self.log
    }

    /// Append an entry. An entry already present at the same index is
    /// replaced and every later entry is dropped (log matching); otherwise
    /// the entry is placed in index order. Returns the entry's index.
    pub fn append(&mut self, entry: RaftLogEntry) -> (r: WcResult<u64>)
        ensures
            final(self).wf(),
            r == Ok::<u64, WcError>(entry.index),
            exists|p: int|
                insertion_point(old(self).entries(), entry.index, p) && final(self).entries()
                    == spliced(old(self).entries(), entry, p),
            append_effect(old(self).entries(), final(self).entries(), entry),
            final(self).applied() == old(self).applied(),
            final(self).committed() == old(self).committed(),
            final(self).vote() == old(self).vote(),
            final(self).wal() == old(self).wal(),
    {
        proof { use_type_invariant(&*self); }
        let index = entry.index;
        let ghost old_log = self.log@;
        let mut log: Vec<RaftLogEntry> = Vec::new();
        std::mem::swap(&mut log, &mut self.log);
        let mut p: usize = 0;
        while p < log.len() && log[p].index < index
            invariant
                log@ == old_log,
                p <= log@.len(),
                forall|i: int| 0 <= i < p ==> #[trigger] log@[i].index < index,
            decreases log@.len() - p,
        {
            p = p + 1;
        }
        assert(insertion_point(old_log, index, p as int));
        let ghost pos = p as int;
        if p < log.len() && log[p].index == index {
            log.truncate(p);
            log.push(entry);
            assert(log@ =~= old_log.take(p as int).push(entry));
        } else {
            log.insert(p, entry);
            assert(log@ =~= old_log.take(p as int).push(entry) + old_log.skip(p as int));
            assert forall|i: int, j: int| 0 <= i < j < log@.len() implies #[trigger] log@[i].index
                < #[trigger] log@[j].index by {
                if j > p && i < p {
                    assert(old_log[i].index < old_log[j - 1].index);
                } else if j > p && i > p {
                    assert(old_log[i - 1].index < old_log[j - 1].index);
                } else if j > p && i == p {
                    if j - 1 > p {
                        assert(old_log[p as int].index < old_log[j - 1].index);
                    }
                }
            }
        }
        assert(insertion_point(old_log, index, pos) && log@ == spliced(old_log, entry, pos));
        self.log = log;
        assert(old(self).entries() == old_log);
        assert(insertion_point(old(self).entries(), entry.index, pos) && self.entries() == spliced(old(self).entries(), entry, pos));
        proof { law_append_effect(old_log, entry, pos); }
        Ok(index)
    }

    /// The entry at an index, if present.
    pub fn get(&self, index: u64) -> (r: Option<&RaftLogEntry>)
        ensures
            r is Some <==> has_index(self.entries(), index),
            r matches Some(e) ==> *e == entry_at(self.entries(), index),
    {
        proof { use_type_invariant(self); }
        let mut i: usize = 0;
        while i < self.log.len()
            invariant
                i <= self.log@.len(),
                log_sorted(self.log@),
                forall|j: int| 0 <= j < i ==> #[trigger] self.log@[j].index != index,
            decreases self.log@.len() - i,
        {
            if self.log[i].index == index {
                proof {
                    let k = choose|k: int| 0 <= k < self.log@.len() && #[trigger] self.log@[k].index == index;
                    if k < i {
                    } else if k > i {
                        assert(self.log@[i as int].index < self.log@[k].index);
                    }
                }
                return Some(&self.log[i]);
            }
            i = i + 1;
        }
        None
    }

    /// Index of the last entry, or 0 for an empty log.
    pub fn last_log_index(&self) -> (r: u64)
        ensures
            r == last_index(self.entries()),
    {
        if self.log.len() == 0 {
            0
        } else {
            self.log[self.log.len() - 1].index
        }
    }

    /// Term of the last entry, or 0 for an empty log.
    pub fn last_log_term(&self) -> (r: u64)
        ensures
            r == last_term(self.entries()),
    {
        if self.log.len() == 0 {
            0
        } else {
            self.log[self.log.len() - 1].term
        }
    }

    /// Record a vote for a candidate in a term, replacing any earlier vote.
    pub fn record_vote(&mut self, term: u64, candidate_id: String)
        ensures
            final(self).vote() == Some((term, candidate_id@)),
            final(self).entries() == old(self).entries(),
            final(self).applied() == old(self).applied(),
            final(self).committed() == old(self).committed(),
            final(self).wal() == old(self).wal(),
    {
        proof { use_type_invariant(&*self); }
        self.current_vote = Some((term, candidate_id));
    }

    /// The candidate voted for in `term`, if the recorded vote is for that term.
    pub fn voted_for(&self, term: u64) -> (r: Option<&str>)
        ensures
            r is Some <==> (self.vote() matches Some((t, _)) && t == term),
            r matches Some(s) ==> self.vote() == Some((term, s@)),
    {
        match &self.current_vote {
            Some((t, id)) => {
                if *t == term {
                    Some(id.as_str())
                } else {
                    None
                }
            },
            None => None,
        }
    }

    /// Raise the commit index; a lower or equal index changes nothing.
    pub fn set_commit_index(&mut self, index: u64)
        ensures
            final(self).committed() == if index > old(self).committed() { index } else { old(self).committed() },
            final(self).entries() == old(self).entries(),
            final(self).applied() == old(self).applied(),
            final(self).vote() == old(self).vote(),
            final(self).wal() == old(self).wal(),
    {
        proof { use_type_invariant(&*self); }
        if index > self.commit_index {
            self.commit_index = index;
        }
    }

    /// Apply every committed entry not yet applied: returns the actions of the
    /// entries with `applied < index <= committed`, in index order, and marks
    /// everything up to the commit index as applied.
    pub fn apply_committed(&mut self) -> (r: Vec<CoordinatorAction>)
        ensures
            r@ == actions_in_range(old(self).entries(), old(self).applied(), old(self).committed()),
            final(self).applied() == if old(self).applied() < old(self).committed() {
                old(self).committed()
            } else {
                old(self).applied()
            },
            final(self).entries() == old(self).entries(),
            final(self).committed() == old(self).committed(),
            final(self).vote() == old(self).vote(),
            final(self).wal() == old(self).wal(),
    {
        proof { use_type_invariant(&*self); }
        let lo = self.last_applied;
        let hi = self.commit_index;
        let ghost pred = |e: RaftLogEntry| lo < e.index && e.index <= hi;
        let mut applied: Vec<CoordinatorAction> = Vec::new();
        let mut i: usize = 0;
        while i < self.log.len()
            invariant
                i <= self.log@.len(),
                pred == (|e: RaftLogEntry| lo < e.index && e.index <= hi),
                applied@ == self.log@.take(i as int).filter(pred).map_values(|e: RaftLogEntry| e.action),
            decreases self.log@.len() - i,
        {
            let entry = &self.log[i];
            proof {
                assert(self.log@.take(i + 1) =~= self.log@.take(i as int).push(*entry));
                self.log@.take(i as int).lemma_filter_push(*entry, pred);
            }
            if lo < entry.index && entry.index <= hi {
                let ghost before = applied@;
                applied.push(entry.action.clone());
                assert(applied@ =~= self.log@.take(i as int).filter(pred).push(*entry).map_values(
                    |e: RaftLogEntry| e.action,
                ));
            }
            i = i + 1;
        }
        assert(self.log@.take(self.log@.len() as int) =~= self.log@);
        if self.last_applied < self.commit_index {
            self.last_applied = self.commit_index;
        }
        applied
    }

    /// Number of entries in the log.
    pub fn len(&self) -> (r: usize)
        ensures
            r == self.entries().len(),
    {
        self.log.len()
    }

    /// Whether the log has no entries.
    pub fn is_empty(&self) -> (r: bool)
        ensures
            r == (self.entries().len() == 0),
    {
        self.log.len() == 0
    }
}

} // verus!

verus! {

/// Shard coordinator: Raft state for one scheduler shard.
#[derive(Debug)]
pub struct Coordinator {
    /// Identifier of this coordinator instance.
    pub coordinator_id: String,
    /// Shard managed by this coordinator.
    pub shard_id: u32,
    /// Current Raft term.
    pub raft_term: u64,
    /// Current Raft role.
    pub raft_role: CoordinatorRole,
    /// Log storage.
    pub storage: RaftCoordinatorStorage,
    /// Known peer coordinator IDs of this shard's cluster.
    pub peers: Vec<String>,
    /// Votes received in the current election (Candidate only).
    pub votes_received: usize,
}

/// Votes needed for a majority of `peer_count` peers plus this node.
pub open spec fn spec_quorum_size(peer_count: nat) -> nat {
    (peer_count + 1) / 2 + 1
}

/// The no-op entry a new leader appends to a log.
pub open spec fn leader_noop(log: Seq<RaftLogEntry>, term: u64) -> RaftLogEntry {
    RaftLogEntry { term, index: (last_index(log) + 1) as u64, action: CoordinatorAction::Noop }
}

impl Coordinator {
    /// The coordinator's log storage.
    pub open spec fn store(&self) -> RaftCoordinatorStorage {
        self.storage
    }

    /// Known peer coordinator IDs.
    pub open spec fn peer_list(&self) -> Seq<Seq<char>> {
        self.peers@.map_values(|p: String| p@)
    }

    /// Votes received in the current election.
    pub open spec fn votes(&self) -> nat {
        self.votes_received as nat
    }

    /// Well-formedness: a peer count whose quorum is computable (the log's
    /// order is kept by the storage itself).
    pub open spec fn wf(&self) -> bool {
        self.peer_list().len() < usize::MAX
    }

    /// Follower in term 0 with no peers, no votes and an empty log.
    pub fn new(coordinator_id: String, shard_id: u32) -> (r: Coordinator)
        ensures
            r.wf(),
            r.coordinator_id@ == coordinator_id@,
            r.shard_id == shard_id,
            r.raft_term == 0,
            r.raft_role == CoordinatorRole::Follower,
            r.peer_list().len() == 0,
            r.votes() == 0,
            r.store().entries().len() == 0,
            r.store().applied() == 0,
            r.store().committed() == 0,
            r.store().vote() is None,
    {
        Coordinator {
            coordinator_id,
            shard_id,
            raft_term: 0,
            raft_role: CoordinatorRole::Follower,
            storage: RaftCoordinatorStorage::new(),
            peers: Vec::new(),
            votes_received: 0,
        }
    }

    /// Follower in term 0 that knows the given peers.
    pub fn with_peers(coordinator_id: String, shard_id: u32, peers: Vec<String>) -> (r: Coordinator)
        requires
            peers@.len() < usize::MAX,
        ensures
            r.wf(),
            r.coordinator_id@ == coordinator_id@,
            r.shard_id == shard_id,
            r.raft_term == 0,
            r.raft_role == CoordinatorRole::Follower,
            r.peer_list() == peers@.map_values(|p: String| p@),
            r.votes() == 0,
            r.store().entries().len() == 0,
            r.store().applied() == 0,
            r.store().committed() == 0,
            r.store().vote() is None,
    {
        let mut coord = Self::new(coordinator_id, shard_id);
        coord.peers = peers;
        coord
    }

    /// Whether this coordinator currently leads the shard.
    pub fn is_leader(&self) -> (r: bool)
        ensures
            r == (self.raft_role == CoordinatorRole::Leader),
    {
        self.raft_role == CoordinatorRole::Leader
    }

    /// Start an election: next term, Candidate, one vote (its own), and a
    /// recorded vote for itself.
    pub fn start_election(&mut self)
        requires
            old(self).raft_term < u64::MAX,
        ensures
            final(self).raft_term == old(self).raft_term + 1,
            final(self).raft_role == CoordinatorRole::Candidate,
            final(self).votes() == 1,
            final(self).store().vote() == Some((final(self).raft_term, old(self).coordinator_id@)),
            final(self).store().entries() == old(self).store().entries(),
            final(self).store().applied() == old(self).store().applied(),
            final(self).store().committed() == old(self).store().committed(),
            final(self).store().wal() == old(self).store().wal(),
            final(self).peer_list() == old(self).peer_list(),
            final(self).coordinator_id == old(self).coordinator_id,
            final(self).shard_id == old(self).shard_id,
    {
        self.raft_term = self.raft_term + 1;
        self.raft_role = CoordinatorRole::Candidate;
        self.votes_received = 1;
        self.storage.record_vote(self.raft_term, self.coordinator_id.clone());
    }

    /// Count a vote. Votes for another term, or received when not a
    /// Candidate, or not granted, change nothing; a granted vote that reaches
    /// the quorum makes this coordinator the leader.
    pub fn receive_vote(&mut self, from_peer: &str, term: u64, granted: bool)
        requires
            old(self).wf(),
            (term == old(self).raft_term && old(self).raft_role == CoordinatorRole::Candidate && granted) ==> {
                &&& old(self).votes() < usize::MAX
                &&& last_index(old(self).store().entries()) < u64::MAX
            },
        ensures
            final(self).wf(),
            (term != old(self).raft_term || old(self).raft_role != CoordinatorRole::Candidate
                || !granted) ==> *final(self) == *old(self),
            (term == old(self).raft_term && old(self).raft_role == CoordinatorRole::Candidate
                && granted && old(self).votes() + 1 < spec_quorum_size(old(self).peer_list().len()))
                ==> {
                &&& final(self).votes() == old(self).votes() + 1
                &&& final(self).raft_role == CoordinatorRole::Candidate
                &&& final(self).raft_term == old(self).raft_term
                &&& final(self).store() == old(self).store()
                &&& final(self).peer_list() == old(self).peer_list()
            },
            (term == old(self).raft_term && old(self).raft_role == CoordinatorRole::Candidate
                && granted && old(self).votes() + 1 >= spec_quorum_size(old(self).peer_list().len()))
                ==> {
                &&& final(self).raft_role == CoordinatorRole::Leader
                &&& final(self).votes() == 0
                &&& final(self).raft_term == old(self).raft_term
                &&& final(self).store().entries() == old(self).store().entries().push(
                    leader_noop(old(self).store().entries(), old(self).raft_term),
                )
                &&& final(self).peer_list() == old(self).peer_list()
            },
            final(self).coordinator_id == old(self).coordinator_id,
            final(self).shard_id == old(self).shard_id,
    {
        if term != self.raft_term || self.raft_role != CoordinatorRole::Candidate {
            return;
        }
        if granted {
            self.votes_received = self.votes_received + 1;
            if self.votes_received >= self.quorum_size() {
                self.become_leader();
            }
        }
    }

    /// Votes needed for a majority of the cluster (peers plus this node).
    pub fn quorum_size(&self) -> (r: usize)
        requires
            self.wf(),
        ensures
            r == spec_quorum_size(self.peer_list().len()),
    {
        let total = self.peers.len() + 1;
        (total / 2) + 1
    }

    /// Become the leader: role Leader, votes cleared, and a no-op entry for
    /// the current term appended after the last entry.
    pub fn become_leader(&mut self)
        requires
            old(self).wf(),
            last_index(old(self).store().entries()) < u64::MAX,
        ensures
            final(self).wf(),
            final(self).raft_role == CoordinatorRole::Leader,
            final(self).votes() == 0,
            final(self).raft_term == old(self).raft_term,
            final(self).store().entries() == old(self).store().entries().push(
                leader_noop(old(self).store().entries(), old(self).raft_term),
            ),
            final(self).store().applied() == old(self).store().applied(),
            final(self).store().committed() == old(self).store().committed(),
            final(self).store().vote() == old(self).store().vote(),
            final(self).store().wal() == old(self).store().wal(),
            final(self).peer_list() == old(self).peer_list(),
            final(self).coordinator_id == old(self).coordinator_id,
            final(self).shard_id == old(self).shard_id,
    {
        proof { use_type_invariant(&self.storage); }
        self.raft_role = CoordinatorRole::Leader;
        self.votes_received = 0;
        let noop = RaftLogEntry {
            term: self.raft_term,
            index: self.storage.last_log_index() + 1,
            action: CoordinatorAction::Noop,
        };
        let ghost log = self.storage.entries();
        let _ = self.storage.append(noop);
        proof {
            lemma_append_past_end(log, noop);
        }
    }

    /// Step down to Follower, adopting `new_term` when it is not lower.
    pub fn step_down(&mut self, new_term: u64)
        ensures
            final(self).raft_term == if new_term >= old(self).raft_term { new_term } else { old(self).raft_term },
            final(self).raft_role == CoordinatorRole::Follower,
            final(self).votes() == 0,
            final(self).store() == old(self).store(),
            final(self).peer_list() == old(self).peer_list(),
            final(self).coordinator_id == old(self).coordinator_id,
            final(self).shard_id == old(self).shard_id,
    {
        if new_term >= self.raft_term {
            self.raft_term = new_term;
        }
        self.raft_role = CoordinatorRole::Follower;
        self.votes_received = 0;
    }

    /// Append an action to the log as a new entry of the current term; only
    /// the leader may, others get `PermissionDenied`.
    pub fn replicate(&mut self, action: CoordinatorAction) -> (r: WcResult<u64>)
        requires
            old(self).wf(),
            old(self).raft_role == CoordinatorRole::Leader ==> last_index(old(self).store().entries()) < u64::MAX,
        ensures
            final(self).wf(),
            r is Err <==> old(self).raft_role != CoordinatorRole::Leader,
            r matches Err(e) ==> e.kind == ErrorCode::PermissionDenied && *final(self) == *old(self),
            r matches Ok(i) ==> {
                &&& i == last_index(old(self).store().entries()) + 1
                &&& final(self).store().entries() == old(self).store().entries().push(
                    RaftLogEntry { term: old(self).raft_term, index: i, action },
                )
                &&& final(self).store().applied() == old(self).store().applied()
                &&& final(self).store().committed() == old(self).store().committed()
                &&& final(self).store().vote() == old(self).store().vote()
                &&& final(self).raft_term == old(self).raft_term
                &&& final(self).raft_role == old(self).raft_role
                &&& final(self).votes() == old(self).votes()
                &&& final(self).peer_list() == old(self).peer_list()
            },
            final(self).coordinator_id == old(self).coordinator_id,
            final(self).shard_id == old(self).shard_id,
    {
        if !self.is_leader() {
            return Err(WcError::with_text(ErrorCode::PermissionDenied, "Only the leader can replicate entries"));
        }
        proof { use_type_invariant(&self.storage); }
        let entry = RaftLogEntry { term: self.raft_term, index: self.storage.last_log_index() + 1, action };
        let ghost log = self.storage.entries();
        let r = self.storage.append(entry);
        proof {
            lemma_append_past_end(log, entry);
        }
        r
    }

    /// The coordinator's log storage.
    pub fn storage(&self) -> (r: &RaftCoordinatorStorage)
        ensures
            *r == self.store(),
    {
        &self.storage
    }
}

/// Appending an entry whose index is past the last index adds it at the end.
pub proof fn lemma_append_past_end(log: Seq<RaftLogEntry>, entry: RaftLogEntry)
    requires
        log_sorted(log),
        entry.index > last_index(log),
    ensures
        forall|p: int| insertion_point(log, entry.index, p) ==> #[trigger] spliced(log, entry, p) == log.push(entry),
        log_sorted(log.push(entry)),
{
    assert forall|p: int| insertion_point(log, entry.index, p) implies #[trigger] spliced(log, entry, p) == log.push(entry) by {
        if p < log.len() {
            if log.len() > 0 {
                assert(log[p].index <= log.last().index);
            }
        }
        assert(p == log.len());
        assert(log.take(p) =~= log);
        assert(log.skip(p) =~= Seq::<RaftLogEntry>::empty());
        assert(log.take(p).push(entry) + log.skip(p) =~= log.push(entry));
    }
    assert forall|i: int, j: int| 0 <= i < j < log.push(entry).len() implies #[trigger] log.push(entry)[i].index < #[trigger] log.push(entry)[j].index by {
        if j == log.len() {
            if i < log.len() - 1 {
                assert(log[i].index < log[log.len() - 1].index);
            }
        }
    }
}

} // verus!

verus! {

/// Splicing an entry in at its insertion point keeps the log sorted.
pub proof fn lemma_spliced_sorted(log: Seq<RaftLogEntry>, entry: RaftLogEntry, p: int)
    requires
        log_sorted(log),
        insertion_point(log, entry.index, p),
    ensures
        log_sorted(spliced(log, entry, p)),
{
    let s = spliced(log, entry, p);
    if p < log.len() && log[p].index == entry.index {
        assert forall|i: int, j: int| 0 <= i < j < s.len() implies #[trigger] s[i].index < #[trigger] s[j].index by {
            if j < p {
                assert(log[i].index < log[j].index);
            }
        }
    } else {
        assert forall|i: int, j: int| 0 <= i < j < s.len() implies #[trigger] s[i].index < #[trigger] s[j].index by {
            if j > p && i < p {
                assert(log[i].index < log[j - 1].index);
            } else if j > p && i > p {
                assert(log[i - 1].index < log[j - 1].index);
            } else if j < p {
                assert(log[i].index < log[j].index);
            }
        }
    }
}

/// In a sorted log, the entry found at position `i` is the entry at its index.
pub proof fn lemma_entry_at_position(log: Seq<RaftLogEntry>, i: int)
    requires
        log_sorted(log),
        0 <= i < log.len(),
    ensures
        has_index(log, log[i].index),
        entry_at(log, log[i].index) == log[i],
{
    let k = choose|k: int| 0 <= k < log.len() && #[trigger] log[k].index == log[i].index;
    if k < i {
        assert(log[k].index < log[i].index);
    } else if k > i {
        assert(log[i].index < log[k].index);
    }
}

/// What appending `entry` does to a log, index by index: the entry is found
/// at its index; smaller indices keep their entries; larger indices are
/// all dropped when the entry replaced an existing one, and otherwise keep
/// their entries.
pub open spec fn append_effect(before: Seq<RaftLogEntry>, after: Seq<RaftLogEntry>, entry: RaftLogEntry) -> bool {
    &&& has_index(after, entry.index)
    &&& entry_at(after, entry.index) == entry
    &&& forall|k: u64| #![trigger has_index(after, k)] k < entry.index ==> {
        &&& has_index(after, k) == has_index(before, k)
        &&& has_index(before, k) ==> entry_at(after, k) == entry_at(before, k)
    }
    &&& forall|k: u64| #![trigger has_index(after, k)] k > entry.index ==> if has_index(before, entry.index) {
        !has_index(after, k)
    } else {
        &&& has_index(after, k) == has_index(before, k)
        &&& has_index(before, k) ==> entry_at(after, k) == entry_at(before, k)
    }
}

/// Appending to a sorted log, read index by index: the entry is found at
/// its index, entries below it are untouched, and entries above it are
/// dropped when it replaced an entry and untouched otherwise.
pub proof fn law_append_effect(log: Seq<RaftLogEntry>, entry: RaftLogEntry, p: int)
    requires
        log_sorted(log),
        insertion_point(log, entry.index, p),
    ensures
        append_effect(log, spliced(log, entry, p), entry),
{
    let s = spliced(log, entry, p);
    law_get_after_append(log, entry, p);
    assert forall|k: u64| #![trigger has_index(s, k)] k < entry.index implies {
        &&& has_index(s, k) == has_index(log, k)
        &&& has_index(log, k) ==> entry_at(s, k) == entry_at(log, k)
    } by {
        law_append_keeps_earlier(log, entry, p, k);
    }
    assert forall|k: u64| #![trigger has_index(s, k)] k > entry.index implies if has_index(log, entry.index) {
        !has_index(s, k)
    } else {
        &&& has_index(s, k) == has_index(log, k)
        &&& has_index(log, k) ==> entry_at(s, k) == entry_at(log, k)
    } by {
        law_append_later_entries(log, entry, p, k);
        if !has_index(log, entry.index) && has_index(log, k) {
            law_append_keeps_later_entries(log, entry, p, k);
        }
    }
}

/// Read after write: once an entry is appended, looking up its index gives
/// that entry.
pub proof fn law_get_after_append(log: Seq<RaftLogEntry>, entry: RaftLogEntry, p: int)
    requires
        log_sorted(log),
        insertion_point(log, entry.index, p),
    ensures
        has_index(spliced(log, entry, p), entry.index),
        entry_at(spliced(log, entry, p), entry.index) == entry,
{
    lemma_spliced_sorted(log, entry, p);
    let s = spliced(log, entry, p);
    assert(s[p] == entry);
    lemma_entry_at_position(s, p);
}

/// Appending never disturbs entries with a smaller index: they are present
/// afterwards exactly when they were present before, with the same content.
pub proof fn law_append_keeps_earlier(log: Seq<RaftLogEntry>, entry: RaftLogEntry, p: int, k: u64)
    requires
        log_sorted(log),
        insertion_point(log, entry.index, p),
        k < entry.index,
    ensures
        has_index(spliced(log, entry, p), k) == has_index(log, k),
        has_index(log, k) ==> entry_at(spliced(log, entry, p), k) == entry_at(log, k),
{
    lemma_spliced_sorted(log, entry, p);
    let s = spliced(log, entry, p);
    if has_index(log, k) {
        let i = choose|i: int| 0 <= i < log.len() && #[trigger] log[i].index == k;
        if i >= p {
            assert(log[i].index >= entry.index) by {
                if i > p {
                    assert(log[p].index < log[i].index);
                }
            }
        }
        assert(s[i] == log[i]);
        lemma_entry_at_position(s, i);
        lemma_entry_at_position(log, i);
    }
    if has_index(s, k) {
        let i = choose|i: int| 0 <= i < s.len() && #[trigger] s[i].index == k;
        if i < p {
            assert(log[i].index == k);
        } else if i == p {
        } else {
            assert(s[p].index < s[i].index);
        }
    }
}

/// Log matching: an entry that replaces an existing index drops every entry
/// after it; one at a fresh index keeps every later entry.
pub proof fn law_append_later_entries(log: Seq<RaftLogEntry>, entry: RaftLogEntry, p: int, k: u64)
    requires
        log_sorted(log),
        insertion_point(log, entry.index, p),
        k > entry.index,
    ensures
        has_index(log, entry.index) ==> !has_index(spliced(log, entry, p), k),
        !has_index(log, entry.index) ==> (has_index(spliced(log, entry, p), k) == has_index(log, k)),
{
    lemma_spliced_sorted(log, entry, p);
    let s = spliced(log, entry, p);
    if has_index(log, entry.index) {
        let q = choose|q: int| 0 <= q < log.len() && #[trigger] log[q].index == entry.index;
        if q > p {
            assert(log[p].index < log[q].index);
        }
        assert(q == p);
        if has_index(s, k) {
            let i = choose|i: int| 0 <= i < s.len() && #[trigger] s[i].index == k;
            assert(s.len() == p + 1);
            if i < p {
                assert(log[i].index < entry.index);
            }
        }
    } else {
        if p < log.len() {
            assert(log[p].index != entry.index);
        }
        if has_index(log, k) {
            let i = choose|i: int| 0 <= i < log.len() && #[trigger] log[i].index == k;
            assert(i >= p);
            assert(s[i + 1] == log[i]);
        }
        if has_index(s, k) {
            let i = choose|i: int| 0 <= i < s.len() && #[trigger] s[i].index == k;
            assert(i > p);
            assert(log[i - 1].index == k);
        }
    }
}

/// Appending at a fresh index leaves every later entry as it was: the
/// entry that a later index names is the same before and after.
pub proof fn law_append_keeps_later_entries(log: Seq<RaftLogEntry>, entry: RaftLogEntry, p: int, k: u64)
    requires
        log_sorted(log),
        insertion_point(log, entry.index, p),
        k > entry.index,
        !has_index(log, entry.index),
        has_index(log, k),
    ensures
        has_index(spliced(log, entry, p), k),
        entry_at(spliced(log, entry, p), k) == entry_at(log, k),
{
    lemma_spliced_sorted(log, entry, p);
    law_append_later_entries(log, entry, p, k);
    let s = spliced(log, entry, p);
    if p < log.len() {
        assert(log[p].index != entry.index);
    }
    let i = choose|i: int| 0 <= i < log.len() && #[trigger] log[i].index == k;
    assert(i >= p);
    assert(s[i + 1] == log[i]);
    lemma_entry_at_position(s, i + 1);
    lemma_entry_at_position(log, i);
}

/// Applying twice applies nothing the second time: once the applied index
/// has caught up with the commit index the range of pending actions is empty.
pub proof fn law_apply_is_idempotent(log: Seq<RaftLogEntry>, applied: u64, committed: u64)
    requires
        applied >= committed,
    ensures
        actions_in_range(log, applied, committed).len() == 0,
{
    let pred = |e: RaftLogEntry| applied < e.index && e.index <= committed;
    broadcast use vstd::seq_lib::group_filter_ensures;
    if log.filter(pred).len() > 0 {
        assert(pred(log.filter(pred)[0]));
    }
}

/// Any two quorums of the same cluster share at least one member: twice the
/// quorum size exceeds the cluster size.
pub proof fn law_quorums_intersect(peer_count: nat)
    ensures
        2 * spec_quorum_size(peer_count) > peer_count + 1,
{
}

} // verus!
