//! The in-memory state of a Raft node: its configuration, its log, its core
//! state, and the node that wraps them, each with a mathematical view.

use crate::eraftpb::{
    Entry, EntryView, HardState, HardStateView, Message, MessageView, Snapshot, SnapshotView,
};
use crate::tracker::{ProgressTracker, ProgressTrackerView};
use std::collections::{HashSet, VecDeque};
use vstd::prelude::*;

verus! {

// ---------------------------------------------------------------------------
// Roles and options
// ---------------------------------------------------------------------------

/// The role of a node in its group.
#[derive(Clone, Copy, Debug, PartialEq, Eq, Structural)]
pub enum StateRole {
    Follower,
    Candidate,
    Leader,
    PreCandidate,
}

/// How read-only requests are served.
#[derive(Clone, Copy, Debug, PartialEq, Eq, Structural)]
pub enum ReadOnlyOption {
    Safe,
    LeaseBased,
}

// ---------------------------------------------------------------------------
// Configuration
// ---------------------------------------------------------------------------

/// What a node configuration holds.
pub struct ConfigView {
    pub id: u64,
    pub election_tick: usize,
    pub heartbeat_tick: usize,
    pub applied: u64,
    pub max_size_per_msg: u64,
    pub max_inflight_msgs: usize,
    pub check_quorum: bool,
    pub pre_vote: bool,
    pub min_election_tick: usize,
    pub max_election_tick: usize,
    pub read_only_option: ReadOnlyOption,
    pub skip_bcast_commit: bool,
    pub batch_append: bool,
    pub priority: i64,
    pub max_uncommitted_size: u64,
    pub max_committed_size_per_ready: u64,
    pub max_apply_unpersisted_log_limit: u64,
    pub disable_proposal_forwarding: bool,
}

impl ConfigView {
    /// The least randomized election timeout: the configured one, or the
    /// election tick when none is configured.
    pub open spec fn effective_min_election_tick(self) -> int {
        if self.min_election_tick == 0 {
            self.election_tick as int
        } else {
            self.min_election_tick as int
        }
    }

    /// The bound of the randomized election timeout: the configured one, or
    /// twice the election tick when none is configured.
    pub open spec fn effective_max_election_tick(self) -> int {
        if self.max_election_tick == 0 {
            2 * self.election_tick
        } else {
            self.max_election_tick as int
        }
    }
}

/// The configuration of a node.
pub struct Config {
    pub id: u64,
    pub election_tick: usize,
    pub heartbeat_tick: usize,
    pub applied: u64,
    pub max_size_per_msg: u64,
    pub max_inflight_msgs: usize,
    pub check_quorum: bool,
    pub pre_vote: bool,
    pub min_election_tick: usize,
    pub max_election_tick: usize,
    pub read_only_option: ReadOnlyOption,
    pub skip_bcast_commit: bool,
    pub batch_append: bool,
    pub priority: i64,
    pub max_uncommitted_size: u64,
    pub max_committed_size_per_ready: u64,
    pub max_apply_unpersisted_log_limit: u64,
    pub disable_proposal_forwarding: bool,
}

impl View for Config {
    type V = ConfigView;

    open spec fn view(&self) -> ConfigView {
        ConfigView {
            id: self.id,
            election_tick: self.election_tick,
            heartbeat_tick: self.heartbeat_tick,
            applied: self.applied,
            max_size_per_msg: self.max_size_per_msg,
            max_inflight_msgs: self.max_inflight_msgs,
            check_quorum: self.check_quorum,
            pre_vote: self.pre_vote,
            min_election_tick: self.min_election_tick,
            max_election_tick: self.max_election_tick,
            read_only_option: self.read_only_option,
            skip_bcast_commit: self.skip_bcast_commit,
            batch_append: self.batch_append,
            priority: self.priority,
            max_uncommitted_size: self.max_uncommitted_size,
            max_committed_size_per_ready: self.max_committed_size_per_ready,
            max_apply_unpersisted_log_limit: self.max_apply_unpersisted_log_limit,
            disable_proposal_forwarding: self.disable_proposal_forwarding,
        }
    }
}

impl Default for Config {
    /// The default configuration: no id, an election tick ten times the
    /// heartbeat tick of two, a window of 256 messages, no limit on
    /// uncommitted or ready sizes, everything else off or zero.
    fn default() -> (r: Config)
        ensures
            r@ == (ConfigView {
                id: 0,
                election_tick: 20,
                heartbeat_tick: 2,
                applied: 0,
                max_size_per_msg: 0,
                max_inflight_msgs: 256,
                check_quorum: false,
                pre_vote: false,
                min_election_tick: 0,
                max_election_tick: 0,
                read_only_option: ReadOnlyOption::Safe,
                skip_bcast_commit: false,
                batch_append: false,
                priority: 0,
                max_uncommitted_size: u64::MAX,
                max_committed_size_per_ready: u64::MAX,
                max_apply_unpersisted_log_limit: 0,
                disable_proposal_forwarding: false,
            }),
    {
        let heartbeat_tick: usize = 2;
        Config {
            id: 0,
            election_tick: heartbeat_tick * 10,
            heartbeat_tick,
            applied: 0,
            max_size_per_msg: 0,
            max_inflight_msgs: 256,
            check_quorum: false,
            pre_vote: false,
            min_election_tick: 0,
            max_election_tick: 0,
            read_only_option: ReadOnlyOption::Safe,
            skip_bcast_commit: false,
            batch_append: false,
            priority: 0,
            max_uncommitted_size: u64::MAX,
            max_committed_size_per_ready: u64::MAX,
            max_apply_unpersisted_log_limit: 0,
            disable_proposal_forwarding: false,
        }
    }
}

impl Config {
    /// The least randomized election timeout.
    pub fn min_election_tick(&self) -> (r: usize)
        ensures
            r == self@.effective_min_election_tick(),
    {
        if self.min_election_tick == 0 {
            self.election_tick
        } else {
            self.min_election_tick
        }
    }

    /// The bound of the randomized election timeout; twice the election tick
    /// must fit in a `usize` when none is configured.
    pub fn max_election_tick(&self) -> (r: usize)
        requires
            self@.effective_max_election_tick() <= usize::MAX,
        ensures
            r == self@.effective_max_election_tick(),
    {
        if self.max_election_tick == 0 {
            2 * self.election_tick
        } else {
            self.max_election_tick
        }
    }
}

// ---------------------------------------------------------------------------
// Small state records
// ---------------------------------------------------------------------------

/// The volatile state that an application may want to observe.
#[derive(Clone, Copy, Debug, PartialEq, Eq, Structural)]
pub struct SoftState {
    pub leader_id: u64,
    pub raft_state: StateRole,
}

/// What the node records of one batch of work it handed out.
#[derive(Clone, Copy, Debug, PartialEq, Eq)]
pub struct ReadyRecord {
    pub number: u64,
    pub last_entry: Option<(u64, u64)>,
    pub snapshot: Option<(u64, u64)>,
}

/// The bookkeeping of entries that are proposed and not yet committed.
#[derive(Clone, Copy, Debug, PartialEq, Eq, Structural)]
pub struct UncommittedState {
    pub max_uncommitted_size: usize,
    pub uncommitted_size: usize,
    pub last_log_tail_index: u64,
}

/// What a read state holds.
pub struct ReadStateView {
    pub index: u64,
    pub request_ctx: Seq<u8>,
}

/// The answer to a read-only request: the commit index at which it may be
/// served.
pub struct ReadState {
    pub index: u64,
    pub request_ctx: Vec<u8>,
}

impl View for ReadState {
    type V = ReadStateView;

    open spec fn view(&self) -> ReadStateView {
        ReadStateView { index: self.index, request_ctx: self.request_ctx@ }
    }
}

// ---------------------------------------------------------------------------
// Read-only requests
// ---------------------------------------------------------------------------

/// What the status of a pending read-only request holds.
pub struct ReadIndexStatusView {
    pub req: MessageView,
    pub index: u64,
    pub acks: Set<u64>,
}

/// A pending read-only request and the peers that acknowledged it.
pub struct ReadIndexStatus {
    pub req: Message,
    pub index: u64,
    pub acks: HashSet<u64>,
}

impl View for ReadIndexStatus {
    type V = ReadIndexStatusView;

    open spec fn view(&self) -> ReadIndexStatusView {
        ReadIndexStatusView { req: self.req@, index: self.index, acks: self.acks@ }
    }
}

/// What the read-only bookkeeping holds.
pub struct ReadOnlyView {
    pub option: ReadOnlyOption,
    pub pending_read_index: Seq<(Seq<u8>, ReadIndexStatusView)>,
    pub read_index_queue: Seq<Seq<u8>>,
}

/// Whether no two pairs of a list have the same key.
pub open spec fn keys_distinct<V>(pairs: Seq<(Seq<u8>, V)>) -> bool {
    forall|i: int, j: int| 0 <= i < j < pairs.len() ==> #[trigger] pairs[i].0 != #[trigger] pairs[j].0
}

impl ReadOnlyView {
    /// The pending requests are keyed by distinct contexts.
    pub open spec fn wf(self) -> bool {
        keys_distinct(self.pending_read_index)
    }
}

/// The read-only requests that wait for a quorum: each pending one under its
/// request context, and the contexts in the order they came.
pub struct ReadOnly {
    pub option: ReadOnlyOption,
    pub pending_read_index: Vec<(Vec<u8>, ReadIndexStatus)>,
    pub read_index_queue: VecDeque<Vec<u8>>,
}

impl View for ReadOnly {
    type V = ReadOnlyView;

    open spec fn view(&self) -> ReadOnlyView {
        ReadOnlyView {
            option: self.option,
            pending_read_index: self.pending_read_index@.map_values(
                |p: (Vec<u8>, ReadIndexStatus)| (p.0@, p.1@),
            ),
            read_index_queue: self.read_index_queue@.map_values(|c: Vec<u8>| c@),
        }
    }
}

impl ReadOnly {
    /// No pending request.
    pub fn new(option: ReadOnlyOption) -> (r: ReadOnly)
        ensures
            r@ == (ReadOnlyView {
                option,
                pending_read_index: Seq::empty(),
                read_index_queue: Seq::empty(),
            }),
    {
        let r = ReadOnly {
            option,
            pending_read_index: Vec::new(),
            read_index_queue: VecDeque::new(),
        };
        assert(r@.pending_read_index =~= Seq::empty());
        assert(r@.read_index_queue =~= Seq::empty());
        r
    }
}

// ---------------------------------------------------------------------------
// Log
// ---------------------------------------------------------------------------

/// The estimate of an entry's encoded size: its data and context, and twelve
/// bytes for the tags and the other fields (a common entry takes ten or
/// eleven; twelve leaves room for a large index or large data).
pub open spec fn approximate_size(e: EntryView) -> nat {
    e.data.len() + e.context.len() + 12
}

/// The sum of the estimated sizes of the entries of a list.
pub open spec fn total_approximate_size(es: Seq<EntryView>) -> int
    decreases es.len(),
{
    if es.len() == 0 {
        0
    } else {
        total_approximate_size(es.drop_last()) + approximate_size(es.last())
    }
}

/// The estimate of an entry's encoded size.
pub fn entry_approximate_size(e: &Entry) -> (r: usize)
    requires
        approximate_size(e@) <= usize::MAX,
    ensures
        r == approximate_size(e@),
{
    e.data.len() + e.context.len() + 12
}

/// What the unstable part of a log holds.
pub struct UnstableView {
    pub snapshot: Option<SnapshotView>,
    pub entries: Seq<EntryView>,
    pub entries_size: usize,
    pub offset: u64,
}

/// The part of the log that is not yet in stable storage: an incoming
/// snapshot, if any, and the entries from `offset` on.
pub struct Unstable {
    pub snapshot: Option<Snapshot>,
    pub entries: Vec<Entry>,
    pub entries_size: usize,
    pub offset: u64,
}

impl View for Unstable {
    type V = UnstableView;

    open spec fn view(&self) -> UnstableView {
        UnstableView {
            snapshot: match self.snapshot {
                Some(s) => Some(s@),
                None => None,
            },
            entries: self.entries@.map_values(|e: Entry| e@),
            entries_size: self.entries_size,
            offset: self.offset,
        }
    }
}

/// What a log holds, apart from its stable storage.
pub struct RaftLogView {
    pub unstable: UnstableView,
    pub committed: u64,
    pub persisted: u64,
    pub applied: u64,
    pub max_apply_unpersisted_log_limit: u64,
}

/// The log of a node: stable storage, the unstable tail, and the indexes that
/// the node has committed, persisted and applied.
pub struct RaftLog<T> {
    pub store: T,
    pub unstable: Unstable,
    pub committed: u64,
    pub persisted: u64,
    pub applied: u64,
    pub max_apply_unpersisted_log_limit: u64,
}

impl<T> View for RaftLog<T> {
    type V = RaftLogView;

    open spec fn view(&self) -> RaftLogView {
        RaftLogView {
            unstable: self.unstable@,
            committed: self.committed,
            persisted: self.persisted,
            applied: self.applied,
            max_apply_unpersisted_log_limit: self.max_apply_unpersisted_log_limit,
        }
    }
}

// ---------------------------------------------------------------------------
// Core state, node
// ---------------------------------------------------------------------------

/// What the core state of a node holds, apart from its stable storage.
pub struct RaftCoreView {
    pub term: u64,
    pub vote: u64,
    pub id: u64,
    pub read_states: Seq<ReadStateView>,
    pub raft_log: RaftLogView,
    pub max_inflight: usize,
    pub max_msg_size: u64,
    pub pending_request_snapshot: u64,
    pub state: StateRole,
    pub promotable: bool,
    pub check_quorum: bool,
    pub pre_vote: bool,
    pub read_only: ReadOnlyView,
    pub heartbeat_timeout: usize,
    pub election_timeout: usize,
    pub leader_id: u64,
    pub lead_transferee: Option<u64>,
    pub election_elapsed: usize,
    pub pending_conf_index: u64,
    pub heartbeat_elapsed: usize,
    pub randomized_election_timeout: usize,
    pub min_election_timeout: usize,
    pub max_election_timeout: usize,
    pub skip_bcast_commit: bool,
    pub batch_append: bool,
    pub priority: i64,
    pub uncommitted_state: UncommittedState,
    pub max_committed_size_per_ready: u64,
    pub disable_proposal_forwarding: bool,
}

/// The core state of a node.
pub struct RaftCore<T> {
    pub term: u64,
    pub vote: u64,
    pub id: u64,
    pub read_states: Vec<ReadState>,
    pub raft_log: RaftLog<T>,
    pub max_inflight: usize,
    pub max_msg_size: u64,
    pub pending_request_snapshot: u64,
    pub state: StateRole,
    pub promotable: bool,
    pub check_quorum: bool,
    pub pre_vote: bool,
    pub read_only: ReadOnly,
    pub heartbeat_timeout: usize,
    pub election_timeout: usize,
    pub leader_id: u64,
    pub lead_transferee: Option<u64>,
    pub election_elapsed: usize,
    pub pending_conf_index: u64,
    pub heartbeat_elapsed: usize,
    pub randomized_election_timeout: usize,
    pub min_election_timeout: usize,
    pub max_election_timeout: usize,
    pub skip_bcast_commit: bool,
    pub batch_append: bool,
    pub priority: i64,
    pub uncommitted_state: UncommittedState,
    pub max_committed_size_per_ready: u64,
    pub disable_proposal_forwarding: bool,
}

impl<T> View for RaftCore<T> {
    type V = RaftCoreView;

    open spec fn view(&self) -> RaftCoreView {
        RaftCoreView {
            term: self.term,
            vote: self.vote,
            id: self.id,
            read_states: self.read_states@.map_values(|rs: ReadState| rs@),
            raft_log: self.raft_log@,
            max_inflight: self.max_inflight,
            max_msg_size: self.max_msg_size,
            pending_request_snapshot: self.pending_request_snapshot,
            state: self.state,
            promotable: self.promotable,
            check_quorum: self.check_quorum,
            pre_vote: self.pre_vote,
            read_only: self.read_only@,
            heartbeat_timeout: self.heartbeat_timeout,
            election_timeout: self.election_timeout,
            leader_id: self.leader_id,
            lead_transferee: self.lead_transferee,
            election_elapsed: self.election_elapsed,
            pending_conf_index: self.pending_conf_index,
            heartbeat_elapsed: self.heartbeat_elapsed,
            randomized_election_timeout: self.randomized_election_timeout,
            min_election_timeout: self.min_election_timeout,
            max_election_timeout: self.max_election_timeout,
            skip_bcast_commit: self.skip_bcast_commit,
            batch_append: self.batch_append,
            priority: self.priority,
            uncommitted_state: self.uncommitted_state,
            max_committed_size_per_ready: self.max_committed_size_per_ready,
            disable_proposal_forwarding: self.disable_proposal_forwarding,
        }
    }
}

/// What a Raft state machine holds, apart from its stable storage.
pub struct RaftView {
    pub prs: ProgressTrackerView,
    pub msgs: Seq<MessageView>,
    pub r: RaftCoreView,
}

/// A Raft state machine: the progress of the peers, the messages waiting to
/// be sent, and the core state.
pub struct Raft<T> {
    pub prs: ProgressTracker,
    pub msgs: Vec<Message>,
    pub r: RaftCore<T>,
}

impl<T> View for Raft<T> {
    type V = RaftView;

    open spec fn view(&self) -> RaftView {
        RaftView {
            prs: self.prs@,
            msgs: self.msgs@.map_values(|m: Message| m@),
            r: self.r@,
        }
    }
}

impl<T> Raft<T> {
    /// The leader this node knows of, and its own role.
    pub fn soft_state(&self) -> (r: SoftState)
        ensures
            r == (SoftState { leader_id: self@.r.leader_id, raft_state: self@.r.state }),
    {
        SoftState { leader_id: self.r.leader_id, raft_state: self.r.state }
    }

    /// The term, vote and commit index of this node.
    pub fn hard_state(&self) -> (r: HardState)
        ensures
            r@ == (HardStateView {
                term: self@.r.term,
                vote: self@.r.vote,
                commit: self@.r.raft_log.committed,
            }),
    {
        HardState::new(self.r.term, self.r.vote, self.r.raft_log.committed)
    }

    /// Whether this node may become leader.
    pub fn promotable(&self) -> (r: bool)
        ensures
            r == self@.r.promotable,
    {
        self.r.promotable
    }

    /// The progress tracker of the group.
    pub fn prs(&self) -> (r: &ProgressTracker)
        ensures
            r@ == self@.prs,
    {
        &self.prs
    }
}

/// What a node holds, apart from its stable storage.
pub struct RawNodeView {
    pub raft: RaftView,
    pub prev_ss: SoftState,
    pub prev_hs: HardStateView,
    pub max_number: u64,
    pub records: Seq<ReadyRecord>,
    pub commit_since_index: u64,
}

/// A node: a Raft state machine, the states last handed to the application,
/// and the records of the batches of work in flight.
pub struct RawNode<T> {
    pub raft: Raft<T>,
    pub prev_ss: SoftState,
    pub prev_hs: HardState,
    pub max_number: u64,
    pub records: VecDeque<ReadyRecord>,
    pub commit_since_index: u64,
}

impl<T> View for RawNode<T> {
    type V = RawNodeView;

    open spec fn view(&self) -> RawNodeView {
        RawNodeView {
            raft: self.raft@,
            prev_ss: self.prev_ss,
            prev_hs: self.prev_hs@,
            max_number: self.max_number,
            records: self.records@,
            commit_since_index: self.commit_since_index,
        }
    }
}

} // verus!
