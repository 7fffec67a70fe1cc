//! Serializable mirrors of a node's core state, of its Raft state machine and
//! of the node itself, and the rebuilding of each from its mirror.

use crate::eraftpb::{HardState, HardStateView, Message, MessageView};
use crate::pb::unknown_field_numbers;
use crate::raft_state::{
    Config, ConfigView, Raft, RaftCore, RaftCoreView, RaftView, RawNode, RawNodeView, ReadOnly,
    ReadState, ReadStateView, ReadyRecord, SoftState, StateRole, UncommittedState,
};
use crate::serde_log::{log_well_coded, SerdeRaftLog, SerdeRaftLogView};
use crate::serde_messages::{SerdeHardState, SerdeMessage};
use crate::serde_state::{
    read_only_snapshots_complete, read_only_well_coded, SerdeConfig, SerdeReadOnly, SerdeReadOnlyOption,
    SerdeReadOnlyView, SerdeReadState, SerdeReadyRecord, SerdeSoftState, SerdeStateRole,
    SerdeUncommittedState,
};
use crate::serde_tracker::{SerdeProgressTracker, SerdeProgressTrackerView};
use std::collections::VecDeque;
use vstd::prelude::*;

verus! {

// ---------------------------------------------------------------------------
// Core state
// ---------------------------------------------------------------------------

/// The configuration that the core state `c` runs under, as its mirror
/// records it.
pub open spec fn config_of_core(c: RaftCoreView) -> ConfigView {
    ConfigView {
        id: c.id,
        election_tick: c.election_timeout,
        heartbeat_tick: c.heartbeat_timeout,
        applied: c.raft_log.applied,
        max_size_per_msg: c.max_msg_size,
        max_inflight_msgs: c.max_inflight,
        check_quorum: c.check_quorum,
        pre_vote: c.pre_vote,
        min_election_tick: c.min_election_timeout,
        max_election_tick: c.max_election_timeout,
        read_only_option: c.read_only.option,
        skip_bcast_commit: c.skip_bcast_commit,
        batch_append: c.batch_append,
        priority: c.priority,
        max_uncommitted_size: c.uncommitted_state.max_uncommitted_size as u64,
        max_committed_size_per_ready: c.max_committed_size_per_ready,
        max_apply_unpersisted_log_limit: c.raft_log.max_apply_unpersisted_log_limit,
        disable_proposal_forwarding: c.disable_proposal_forwarding,
    }
}

/// What the mirror of a core state holds.
pub struct SerdeRaftCoreView {
    pub term: u64,
    pub vote: u64,
    pub id: u64,
    pub read_states: Seq<ReadStateView>,
    pub raft_log: SerdeRaftLogView,
    pub state: StateRole,
    pub leader_id: u64,
    pub lead_transferee: Option<u64>,
    pub pending_conf_index: u64,
    pub pending_request_snapshot: u64,
    pub election_elapsed: usize,
    pub heartbeat_elapsed: usize,
    pub check_quorum: bool,
    pub pre_vote: bool,
    pub skip_bcast_commit: bool,
    pub batch_append: bool,
    pub heartbeat_timeout: usize,
    pub election_timeout: usize,
    pub randomized_election_timeout: usize,
    pub min_election_timeout: usize,
    pub max_election_timeout: usize,
    pub config: ConfigView,
    pub promote: bool,
    pub max_inflight: usize,
    pub max_msg_size: u64,
    pub priority: i64,
    pub read_only: SerdeReadOnlyView,
    pub uncommitted_state: UncommittedState,
    pub max_committed_size_per_ready: u64,
    pub disable_proposal_forwarding: bool,
}

impl SerdeRaftCoreView {
    /// This mirror holds the core state `c`, with the configuration that `c`
    /// runs under.
    pub open spec fn mirrors(self, c: RaftCoreView) -> bool {
        &&& self.term == c.term
        &&& self.vote == c.vote
        &&& self.id == c.id
        &&& self.read_states == c.read_states
        &&& self.raft_log.mirrors(c.raft_log)
        &&& self.state == c.state
        &&& self.leader_id == c.leader_id
        &&& self.lead_transferee == c.lead_transferee
        &&& self.pending_conf_index == c.pending_conf_index
        &&& self.pending_request_snapshot == c.pending_request_snapshot
        &&& self.election_elapsed == c.election_elapsed
        &&& self.heartbeat_elapsed == c.heartbeat_elapsed
        &&& self.check_quorum == c.check_quorum
        &&& self.pre_vote == c.pre_vote
        &&& self.skip_bcast_commit == c.skip_bcast_commit
        &&& self.batch_append == c.batch_append
        &&& self.heartbeat_timeout == c.heartbeat_timeout
        &&& self.election_timeout == c.election_timeout
        &&& self.randomized_election_timeout == c.randomized_election_timeout
        &&& self.min_election_timeout == c.min_election_timeout
        &&& self.max_election_timeout == c.max_election_timeout
        &&& self.config == config_of_core(c)
        &&& self.promote == c.promotable
        &&& self.max_inflight == c.max_inflight
        &&& self.max_msg_size == c.max_msg_size
        &&& self.priority == c.priority
        &&& self.read_only.mirrors(c.read_only)
        &&& self.uncommitted_state == c.uncommitted_state
        &&& self.max_committed_size_per_ready == c.max_committed_size_per_ready
        &&& self.disable_proposal_forwarding == c.disable_proposal_forwarding
    }

    /// The mirror can be rebuilt: the size estimate of the unstable entries,
    /// and twice the election tick when the configuration sets no bound of the
    /// election timeout, fit in a `usize`.
    pub open spec fn restorable(self) -> bool {
        &&& self.raft_log.restorable()
        &&& self.config.effective_max_election_tick() <= usize::MAX
    }

    /// The core state that this mirror reads back as. The settings that the
    /// configuration carries (window and message sizes, quorum checks, pre-vote,
    /// timeouts, broadcast and append options, priority, ready size, proposal
    /// forwarding) come from the mirrored configuration; the election timeout
    /// bounds are those the configuration yields.
    pub open spec fn restored(self) -> RaftCoreView {
        RaftCoreView {
            term: self.term,
            vote: self.vote,
            id: self.id,
            read_states: self.read_states,
            raft_log: self.raft_log.restored(),
            max_inflight: self.config.max_inflight_msgs,
            max_msg_size: self.config.max_size_per_msg,
            pending_request_snapshot: self.pending_request_snapshot,
            state: self.state,
            promotable: self.promote,
            check_quorum: self.config.check_quorum,
            pre_vote: self.config.pre_vote,
            read_only: self.read_only.restored(),
            heartbeat_timeout: self.config.heartbeat_tick,
            election_timeout: self.config.election_tick,
            leader_id: self.leader_id,
            lead_transferee: self.lead_transferee,
            election_elapsed: self.election_elapsed,
            pending_conf_index: self.pending_conf_index,
            heartbeat_elapsed: self.heartbeat_elapsed,
            randomized_election_timeout: self.randomized_election_timeout,
            min_election_timeout: self.config.effective_min_election_tick() as usize,
            max_election_timeout: self.config.effective_max_election_tick() as usize,
            skip_bcast_commit: self.config.skip_bcast_commit,
            batch_append: self.config.batch_append,
            priority: self.config.priority,
            uncommitted_state: self.uncommitted_state,
            max_committed_size_per_ready: self.config.max_committed_size_per_ready,
            disable_proposal_forwarding: self.config.disable_proposal_forwarding,
        }
    }
}

/// The snapshots that a core state holds, in its unstable log and in its
/// pending read requests, all have their metadata.
pub open spec fn core_snapshots_complete(c: RaftCoreView) -> bool {
    &&& c.raft_log.unstable.snapshot matches Some(s) ==> s.metadata is Some
    &&& read_only_snapshots_complete(c.read_only)
}

/// The kind codes in a core state, of its unstable entries and of its
/// pending read requests, name kinds.
pub open spec fn core_well_coded(c: RaftCoreView) -> bool {
    &&& log_well_coded(c.raft_log)
    &&& read_only_well_coded(c.read_only)
}

/// Serializable mirror of a node's core state.
pub struct SerdeRaftCore {
    pub term: u64,
    pub vote: u64,
    pub id: u64,
    pub read_states: Vec<SerdeReadState>,
    pub raft_log: SerdeRaftLog,
    pub state: SerdeStateRole,
    pub leader_id: u64,
    pub lead_transferee: Option<u64>,
    pub pending_conf_index: u64,
    pub pending_request_snapshot: u64,
    pub election_elapsed: usize,
    pub heartbeat_elapsed: usize,
    pub check_quorum: bool,
    pub pre_vote: bool,
    pub skip_bcast_commit: bool,
    pub batch_append: bool,
    pub heartbeat_timeout: usize,
    pub election_timeout: usize,
    pub randomized_election_timeout: usize,
    pub min_election_timeout: usize,
    pub max_election_timeout: usize,
    pub config: SerdeConfig,
    pub promote: bool,
    pub max_inflight: usize,
    pub max_msg_size: u64,
    pub priority: i64,
    pub read_only: SerdeReadOnly,
    pub uncommitted_state: SerdeUncommittedState,
    pub max_committed_size_per_ready: u64,
    pub disable_proposal_forwarding: bool,
}

impl View for SerdeRaftCore {
    type V = SerdeRaftCoreView;

    open spec fn view(&self) -> SerdeRaftCoreView {
        SerdeRaftCoreView {
            term: self.term,
            vote: self.vote,
            id: self.id,
            read_states: self.read_states@.map_values(|rs: SerdeReadState| rs@),
            raft_log: self.raft_log@,
            state: self.state@,
            leader_id: self.leader_id,
            lead_transferee: self.lead_transferee,
            pending_conf_index: self.pending_conf_index,
            pending_request_snapshot: self.pending_request_snapshot,
            election_elapsed: self.election_elapsed,
            heartbeat_elapsed: self.heartbeat_elapsed,
            check_quorum: self.check_quorum,
            pre_vote: self.pre_vote,
            skip_bcast_commit: self.skip_bcast_commit,
            batch_append: self.batch_append,
            heartbeat_timeout: self.heartbeat_timeout,
            election_timeout: self.election_timeout,
            randomized_election_timeout: self.randomized_election_timeout,
            min_election_timeout: self.min_election_timeout,
            max_election_timeout: self.max_election_timeout,
            config: self.config@,
            promote: self.promote,
            max_inflight: self.max_inflight,
            max_msg_size: self.max_msg_size,
            priority: self.priority,
            read_only: self.read_only@,
            uncommitted_state: self.uncommitted_state@,
            max_committed_size_per_ready: self.max_committed_size_per_ready,
            disable_proposal_forwarding: self.disable_proposal_forwarding,
        }
    }
}

impl SerdeRaftCore {
    /// The mirror of the core state of `raft`; the snapshots it holds must
    /// have their metadata. The kind codes it holds always name kinds.
    pub fn from_raft_core<T>(raft: &Raft<T>) -> (r: SerdeRaftCore)
        requires
            core_snapshots_complete(raft@.r),
        ensures
            r@.mirrors(raft@.r),
            core_well_coded(raft@.r),
            r.term == raft.r.term,
            r.vote == raft.r.vote,
            r.id == raft.r.id,
            r.leader_id == raft.r.leader_id,
            r.lead_transferee == raft.r.lead_transferee,
            r.pending_conf_index == raft.r.pending_conf_index,
            r.pending_request_snapshot == raft.r.pending_request_snapshot,
            r.election_elapsed == raft.r.election_elapsed,
            r.heartbeat_elapsed == raft.r.heartbeat_elapsed,
            r.check_quorum == raft.r.check_quorum,
            r.pre_vote == raft.r.pre_vote,
            r.skip_bcast_commit == raft.r.skip_bcast_commit,
            r.batch_append == raft.r.batch_append,
            r.heartbeat_timeout == raft.r.heartbeat_timeout,
            r.election_timeout == raft.r.election_timeout,
            r.randomized_election_timeout == raft.r.randomized_election_timeout,
            r.min_election_timeout == raft.r.min_election_timeout,
            r.max_election_timeout == raft.r.max_election_timeout,
            r.max_inflight == raft.r.max_inflight,
            r.max_msg_size == raft.r.max_msg_size,
            r.priority == raft.r.priority,
            r.max_committed_size_per_ready == raft.r.max_committed_size_per_ready,
            r.disable_proposal_forwarding == raft.r.disable_proposal_forwarding,
            r.promote == raft.r.promotable,
            r.state@ == raft.r.state,
            r.config.id == raft.r.id,
            r.config.election_tick == raft.r.election_timeout,
            r.config.heartbeat_tick == raft.r.heartbeat_timeout,
            r.config.applied == raft.r.raft_log.applied,
            r.config.max_size_per_msg == raft.r.max_msg_size,
            r.config.max_inflight_msgs == raft.r.max_inflight,
            r.config.check_quorum == raft.r.check_quorum,
            r.config.pre_vote == raft.r.pre_vote,
            r.config.min_election_tick == raft.r.min_election_timeout,
            r.config.max_election_tick == raft.r.max_election_timeout,
            r.config.skip_bcast_commit == raft.r.skip_bcast_commit,
            r.config.batch_append == raft.r.batch_append,
            r.config.priority == raft.r.priority,
            r.config.max_committed_size_per_ready == raft.r.max_committed_size_per_ready,
            r.config.max_apply_unpersisted_log_limit == raft.r.raft_log.max_apply_unpersisted_log_limit,
            r.config.disable_proposal_forwarding == raft.r.disable_proposal_forwarding,
            r.config.read_only_option@ == raft.r.read_only.option,
            r.config.max_uncommitted_size == raft.r.uncommitted_state.max_uncommitted_size as u64,
            r.uncommitted_state.max_uncommitted_size == raft.r.uncommitted_state.max_uncommitted_size,
            r.uncommitted_state.uncommitted_size == raft.r.uncommitted_state.uncommitted_size,
            r.uncommitted_state.last_log_tail_index == raft.r.uncommitted_state.last_log_tail_index,
    {
        let core = &raft.r;
        let mut read_states: Vec<SerdeReadState> = Vec::new();
        for i in 0..core.read_states.len()
            invariant
                read_states@.len() == i,
                forall|j: int|
                    0 <= j < i ==> (#[trigger] read_states@[j])@ == core.read_states@[j]@,
        {
            read_states.push(SerdeReadState::from(&core.read_states[i]));
        }
        let config = SerdeConfig {
            id: core.id,
            election_tick: core.election_timeout,
            heartbeat_tick: core.heartbeat_timeout,
            applied: core.raft_log.applied,
            max_size_per_msg: core.max_msg_size,
            max_inflight_msgs: core.max_inflight,
            check_quorum: core.check_quorum,
            pre_vote: core.pre_vote,
            min_election_tick: core.min_election_timeout,
            max_election_tick: core.max_election_timeout,
            read_only_option: SerdeReadOnlyOption::from(core.read_only.option),
            skip_bcast_commit: core.skip_bcast_commit,
            batch_append: core.batch_append,
            priority: core.priority,
            max_uncommitted_size: core.uncommitted_state.max_uncommitted_size as u64,
            max_committed_size_per_ready: core.max_committed_size_per_ready,
            max_apply_unpersisted_log_limit: core.raft_log.max_apply_unpersisted_log_limit,
            disable_proposal_forwarding: core.disable_proposal_forwarding,
        };
        let r = SerdeRaftCore {
            term: core.term,
            vote: core.vote,
            id: core.id,
            read_states,
            raft_log: SerdeRaftLog::from_raft_log(&core.raft_log),
            state: SerdeStateRole::from(core.state),
            leader_id: core.leader_id,
            lead_transferee: core.lead_transferee,
            pending_conf_index: core.pending_conf_index,
            pending_request_snapshot: core.pending_request_snapshot,
            election_elapsed: core.election_elapsed,
            heartbeat_elapsed: core.heartbeat_elapsed,
            check_quorum: core.check_quorum,
            pre_vote: core.pre_vote,
            skip_bcast_commit: core.skip_bcast_commit,
            batch_append: core.batch_append,
            heartbeat_timeout: core.heartbeat_timeout,
            election_timeout: core.election_timeout,
            randomized_election_timeout: core.randomized_election_timeout,
            min_election_timeout: core.min_election_timeout,
            max_election_timeout: core.max_election_timeout,
            config,
            promote: raft.promotable(),
            max_inflight: core.max_inflight,
            max_msg_size: core.max_msg_size,
            priority: core.priority,
            read_only: SerdeReadOnly::from_read_only(&core.read_only),
            uncommitted_state: SerdeUncommittedState::from(
                UncommittedState {
                    max_uncommitted_size: core.uncommitted_state.max_uncommitted_size,
                    uncommitted_size: core.uncommitted_state.uncommitted_size,
                    last_log_tail_index: core.uncommitted_state.last_log_tail_index,
                },
            ),
            max_committed_size_per_ready: core.max_committed_size_per_ready,
            disable_proposal_forwarding: core.disable_proposal_forwarding,
        };
        assert(r@.read_states =~= raft@.r.read_states);
        r
    }

    /// Rebuilds the core state that this mirror holds over the stable storage
    /// `storage`; see [`SerdeRaftCoreView::restored`].
    pub fn into_core<T>(self, storage: T) -> (r: RaftCore<T>)
        requires
            self@.restorable(),
        ensures
            r@ == self@.restored(),
            r.raft_log.store == storage,
            r.id == self.id,
            r.pending_request_snapshot == self.pending_request_snapshot,
            r.leader_id == self.leader_id,
            r.lead_transferee == self.lead_transferee,
            r.term == self.term,
            r.election_elapsed == self.election_elapsed,
            r.pending_conf_index == self.pending_conf_index,
            r.vote == self.vote,
            r.heartbeat_elapsed == self.heartbeat_elapsed,
            r.randomized_election_timeout == self.randomized_election_timeout,
            r.promotable == self.promote,
            r.state == self.state@,
            r.max_inflight == self.config.max_inflight_msgs,
            r.max_msg_size == self.config.max_size_per_msg,
            r.check_quorum == self.config.check_quorum,
            r.pre_vote == self.config.pre_vote,
            r.heartbeat_timeout == self.config.heartbeat_tick,
            r.election_timeout == self.config.election_tick,
            r.skip_bcast_commit == self.config.skip_bcast_commit,
            r.batch_append == self.config.batch_append,
            r.priority == self.config.priority,
            r.max_committed_size_per_ready == self.config.max_committed_size_per_ready,
            r.disable_proposal_forwarding == self.config.disable_proposal_forwarding,
            r.uncommitted_state.max_uncommitted_size == self.uncommitted_state.max_uncommitted_size,
            r.uncommitted_state.uncommitted_size == self.uncommitted_state.uncommitted_size,
            r.uncommitted_state.last_log_tail_index == self.uncommitted_state.last_log_tail_index,
    {
        let ghost sv = self@;
        let config = Config::from(self.config);
        let raft_log = self.raft_log.into_raft_log(storage);
        let mut read_states: Vec<ReadState> = Vec::new();
        for rs in it: self.read_states.into_iter()
            invariant
                it.seq() == self.read_states@,
                read_states@.len() == it.index(),
                forall|j: int|
                    0 <= j < it.index() ==> (#[trigger] read_states@[j])@
                        == self.read_states@[j]@,
        {
            read_states.push(ReadState::from(rs));
        }
        let min_election_timeout: usize = config.min_election_tick();
        let max_election_timeout: usize = config.max_election_tick();
        let r = RaftCore {
            id: self.id,
            read_states,
            raft_log,
            max_inflight: config.max_inflight_msgs,
            max_msg_size: config.max_size_per_msg,
            pending_request_snapshot: self.pending_request_snapshot,
            state: StateRole::from(self.state),
            promotable: self.promote,
            check_quorum: config.check_quorum,
            pre_vote: config.pre_vote,
            read_only: ReadOnly::from(self.read_only),
            heartbeat_timeout: config.heartbeat_tick,
            election_timeout: config.election_tick,
            leader_id: self.leader_id,
            lead_transferee: self.lead_transferee,
            term: self.term,
            election_elapsed: self.election_elapsed,
            pending_conf_index: self.pending_conf_index,
            vote: self.vote,
            heartbeat_elapsed: self.heartbeat_elapsed,
            randomized_election_timeout: self.randomized_election_timeout,
            min_election_timeout,
            max_election_timeout,
            skip_bcast_commit: config.skip_bcast_commit,
            batch_append: config.batch_append,
            priority: config.priority,
            uncommitted_state: UncommittedState::from(self.uncommitted_state),
            max_committed_size_per_ready: config.max_committed_size_per_ready,
            disable_proposal_forwarding: config.disable_proposal_forwarding,
        };
        assert(r@.read_states =~= sv.read_states);
        r
    }
}

// ---------------------------------------------------------------------------
// Raft state machine
// ---------------------------------------------------------------------------

/// What the mirror of a Raft state machine holds.
pub struct SerdeRaftView {
    pub prs: SerdeProgressTrackerView,
    pub msgs: Seq<MessageView>,
    pub r: SerdeRaftCoreView,
}

impl SerdeRaftView {
    /// This mirror holds the state machine `raft`.
    pub open spec fn mirrors(self, raft: RaftView) -> bool {
        &&& self.prs.mirrors(raft.prs)
        &&& self.msgs == raft.msgs
        &&& self.r.mirrors(raft.r)
    }

    /// The lists of voters and learners of the mirrored configuration are
    /// short enough that their lengths add up within a `usize`.
    pub open spec fn member_counts_fit(self) -> bool {
        self.prs.conf.voters.incoming.len() + self.prs.conf.voters.outgoing.len()
            + self.prs.conf.learners.len() <= usize::MAX
    }

    /// The state machine that this mirror reads back as.
    pub open spec fn restored(self) -> RaftView {
        RaftView {
            prs: self.prs.restored(),
            msgs: self.msgs.map_values(|m: MessageView| m.decoded()),
            r: self.r.restored(),
        }
    }
}

/// The snapshots that a state machine holds, in its messages and its core
/// state, all have their metadata.
pub open spec fn raft_snapshots_complete(raft: RaftView) -> bool {
    &&& forall|i: int| 0 <= i < raft.msgs.len() ==> (#[trigger] raft.msgs[i]).snapshot_complete()
    &&& core_snapshots_complete(raft.r)
}

/// The kind codes in a state machine, of its messages and in its core
/// state, name kinds.
pub open spec fn raft_well_coded(raft: RaftView) -> bool {
    &&& forall|i: int| 0 <= i < raft.msgs.len() ==> (#[trigger] raft.msgs[i]).well_coded()
    &&& core_well_coded(raft.r)
}

/// Serializable mirror of a Raft state machine; its messages are copies, and
/// the state machine is left as it was.
pub struct SerdeRaft {
    prs: SerdeProgressTracker,
    pub msgs: Vec<SerdeMessage>,
    pub r: SerdeRaftCore,
}

impl View for SerdeRaft {
    type V = SerdeRaftView;

    closed spec fn view(&self) -> SerdeRaftView {
        SerdeRaftView {
            prs: self.prs@,
            msgs: self.msgs@.map_values(|m: SerdeMessage| m@),
            r: self.r@,
        }
    }
}

impl SerdeRaft {
    /// The mirror of the progress tracker.
    pub fn prs(&self) -> (r: &SerdeProgressTracker)
        ensures
            r@ == self@.prs,
    {
        &self.prs
    }

    /// The mirror made of the given parts.
    pub fn new(prs: SerdeProgressTracker, msgs: Vec<SerdeMessage>, r: SerdeRaftCore) -> (s:
        SerdeRaft)
        ensures
            s@ == (SerdeRaftView {
                prs: prs@,
                msgs: msgs@.map_values(|m: SerdeMessage| m@),
                r: r@,
            }),
    {
        SerdeRaft { prs, msgs, r }
    }

    /// The mirror of a Raft state machine; the snapshots it holds must have
    /// their metadata. The kind codes it holds always name kinds.
    pub fn from_raft<T>(raft: &Raft<T>) -> (r: SerdeRaft)
        requires
            raft_snapshots_complete(raft@),
        ensures
            r@.mirrors(raft@),
            raft_well_coded(raft@),
    {
        let prs = SerdeProgressTracker::from(raft.prs());
        let mut msgs: Vec<SerdeMessage> = Vec::new();
        for i in 0..raft.msgs.len()
            invariant
                raft_snapshots_complete(raft@),
                msgs@.len() == i,
                forall|j: int| 0 <= j < i ==> (#[trigger] msgs@[j])@ == raft.msgs@[j]@,
                forall|j: int| 0 <= j < i ==> (#[trigger] raft@.msgs[j]).well_coded(),
        {
            assert(raft@.msgs[i as int] == raft.msgs@[i as int]@);
            let m = SerdeMessage::from_message(&raft.msgs[i]);
            assert(raft@.msgs[i as int].well_coded());
            msgs.push(m);
        }
        let r = SerdeRaft { prs, msgs, r: SerdeRaftCore::from_raft_core(raft) };
        assert(r@.msgs =~= raft@.msgs);
        r
    }

    /// Rebuilds the state machine that this mirror holds over the stable
    /// storage `storage`; see [`SerdeRaftView::restored`].
    pub fn into_raft<T>(self, storage: T) -> (r: Raft<T>)
        requires
            self@.r.restorable(),
            self@.member_counts_fit(),
        ensures
            r@ == self@.restored(),
            r.r.raft_log.store == storage,
            forall|i: int|
                0 <= i < r.msgs@.len() ==> unknown_field_numbers(
                    (#[trigger] r.msgs@[i]).unknown_fields,
                ).is_empty(),
    {
        let ghost sv = self@;
        let core = self.r.into_core(storage);
        let prs = self.prs.into_tracker();
        let mut msgs: Vec<Message> = Vec::new();
        for m in it: self.msgs.into_iter()
            invariant
                it.seq() == self.msgs@,
                msgs@.len() == it.index(),
                forall|j: int|
                    0 <= j < it.index() ==> (#[trigger] msgs@[j])@ == self.msgs@[j]@.decoded(),
                forall|j: int|
                    0 <= j < it.index() ==> unknown_field_numbers(
                        (#[trigger] msgs@[j]).unknown_fields,
                    ).is_empty(),
        {
            msgs.push(Message::from(m));
        }
        let r = Raft { prs, msgs, r: core };
        assert(r@.msgs =~= sv.restored().msgs);
        r
    }
}

// ---------------------------------------------------------------------------
// Node
// ---------------------------------------------------------------------------

/// What the mirror of a node holds.
pub struct SerdeRawNodeView {
    pub raft: SerdeRaftView,
    pub soft_state: SoftState,
    pub hard_state: HardStateView,
    pub prev_ss: SoftState,
    pub prev_hs: HardStateView,
    pub max_number: u64,
    pub records: Seq<ReadyRecord>,
    pub commit_since_index: u64,
}

impl SerdeRawNodeView {
    /// This mirror holds the node `node`, with the node's current soft and
    /// hard states.
    pub open spec fn mirrors(self, node: RawNodeView) -> bool {
        &&& self.raft.mirrors(node.raft)
        &&& self.soft_state == (SoftState {
            leader_id: node.raft.r.leader_id,
            raft_state: node.raft.r.state,
        })
        &&& self.hard_state == (HardStateView {
            term: node.raft.r.term,
            vote: node.raft.r.vote,
            commit: node.raft.r.raft_log.committed,
        })
        &&& self.prev_ss == node.prev_ss
        &&& self.prev_hs == node.prev_hs
        &&& self.max_number == node.max_number
        &&& self.records == node.records
        &&& self.commit_since_index == node.commit_since_index
    }

    /// The node that this mirror reads back as; the current soft and hard
    /// states are not read back, the state machine carries them.
    pub open spec fn restored(self) -> RawNodeView {
        RawNodeView {
            raft: self.raft.restored(),
            prev_ss: self.prev_ss,
            prev_hs: self.prev_hs,
            max_number: self.max_number,
            records: self.records,
            commit_since_index: self.commit_since_index,
        }
    }
}

/// Serializable mirror of a node.
pub struct SerdeRawNode {
    pub raft: SerdeRaft,
    pub soft_state: SerdeSoftState,
    pub hard_state: SerdeHardState,
    pub prev_ss: SerdeSoftState,
    pub prev_hs: SerdeHardState,
    pub max_number: u64,
    pub records: Vec<SerdeReadyRecord>,
    pub commit_since_index: u64,
}

impl View for SerdeRawNode {
    type V = SerdeRawNodeView;

    open spec fn view(&self) -> SerdeRawNodeView {
        SerdeRawNodeView {
            raft: self.raft@,
            soft_state: self.soft_state@,
            hard_state: self.hard_state@,
            prev_ss: self.prev_ss@,
            prev_hs: self.prev_hs@,
            max_number: self.max_number,
            records: self.records@.map_values(|r: SerdeReadyRecord| r@),
            commit_since_index: self.commit_since_index,
        }
    }
}

impl SerdeRawNode {
    /// The mirror of a node; the snapshots it holds must have their metadata.
    /// The kind codes it holds always name kinds.
    pub fn from_node<T>(node: &RawNode<T>) -> (r: SerdeRawNode)
        requires
            raft_snapshots_complete(node@.raft),
        ensures
            r@.mirrors(node@),
            raft_well_coded(node@.raft),
            r.max_number == node.max_number,
            r.commit_since_index == node.commit_since_index,
            r.prev_ss@ == node.prev_ss,
            r.prev_hs@ == node.prev_hs@,
            r.soft_state.leader_id == node.raft.r.leader_id,
            r.soft_state.raft_state@ == node.raft.r.state,
            r.hard_state.term == node.raft.r.term,
            r.hard_state.vote == node.raft.r.vote,
            r.hard_state.commit == node.raft.r.raft_log.committed,
    {
        let soft_state = node.raft.soft_state();
        let hard_state = node.raft.hard_state();
        let mut records: Vec<SerdeReadyRecord> = Vec::new();
        for i in 0..node.records.len()
            invariant
                records@.len() == i,
                i <= node.records@.len(),
                forall|j: int| 0 <= j < i ==> (#[trigger] records@[j])@ == node.records@[j],
        {
            let rec = node.records[i];
            records.push(
                SerdeReadyRecord {
                    number: rec.number,
                    last_entry: rec.last_entry,
                    snapshot: rec.snapshot,
                },
            );
        }
        let r = SerdeRawNode {
            raft: SerdeRaft::from_raft(&node.raft),
            soft_state: SerdeSoftState::from_soft_state(soft_state),
            hard_state: SerdeHardState::from(hard_state),
            prev_ss: SerdeSoftState::from_soft_state(
                SoftState {
                    leader_id: node.prev_ss.leader_id,
                    raft_state: node.prev_ss.raft_state,
                },
            ),
            prev_hs: SerdeHardState::from(
                HardState::new(node.prev_hs.term, node.prev_hs.vote, node.prev_hs.commit),
            ),
            max_number: node.max_number,
            records,
            commit_since_index: node.commit_since_index,
        };
        assert(r@.records =~= node@.records);
        r
    }

    /// Rebuilds the node that this mirror holds over the stable storage
    /// `storage`; see [`SerdeRawNodeView::restored`].
    pub fn into_node<T>(self, storage: T) -> (r: RawNode<T>)
        requires
            self@.raft.r.restorable(),
            self@.raft.member_counts_fit(),
        ensures
            r@ == self@.restored(),
            r.raft.r.raft_log.store == storage,
            r.max_number == self.max_number,
            r.commit_since_index == self.commit_since_index,
            r.prev_ss == self.prev_ss@,
            r.prev_hs@ == self.prev_hs@,
            forall|i: int|
                0 <= i < r.raft.msgs@.len() ==> unknown_field_numbers(
                    (#[trigger] r.raft.msgs@[i]).unknown_fields,
                ).is_empty(),
    {
        let ghost sv = self@;
        let raft = self.raft.into_raft(storage);
        let mut records: VecDeque<ReadyRecord> = VecDeque::new();
        for rec in it: self.records.into_iter()
            invariant
                forall|i: int|
                    0 <= i < raft.msgs@.len() ==> unknown_field_numbers(
                        (#[trigger] raft.msgs@[i]).unknown_fields,
                    ).is_empty(),
                it.seq() == self.records@,
                records@.len() == it.index(),
                forall|j: int| 0 <= j < it.index() ==> (#[trigger] records@[j]) == self.records@[j]@,
        {
            records.push_back(rec.into_ready_record());
        }
        let r = RawNode {
            raft,
            prev_ss: self.prev_ss.into_soft_state(),
            prev_hs: HardState::from(self.prev_hs),
            max_number: self.max_number,
            records,
            commit_since_index: self.commit_since_index,
        };
        assert(r@.records =~= sv.records);
        r
    }
}

} // verus!
