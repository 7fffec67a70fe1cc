//! Serializable mirrors of the core records of a node: roles, options,
//! configuration, read states and read-only bookkeeping, soft states and
//! ready records.

use crate::eraftpb::{Message, MessageView};
use crate::raft_state::{
    keys_distinct, Config, ConfigView, ReadIndexStatus, ReadIndexStatusView, ReadOnly,
    ReadOnlyOption, ReadOnlyView, ReadState, ReadStateView, ReadyRecord, SoftState, StateRole,
    UncommittedState,
};
use crate::seq_util::{copy_bytes, ids_to_set, set_to_ids};
use crate::serde_messages::SerdeMessage;
use std::collections::VecDeque;
use vstd::prelude::*;

verus! {

// ---------------------------------------------------------------------------
// Role
// ---------------------------------------------------------------------------

/// Serializable mirror of a node's role.
#[derive(Clone, Copy)]
pub enum SerdeStateRole {
    Follower,
    Candidate,
    Leader,
    PreCandidate,
}

impl View for SerdeStateRole {
    type V = StateRole;

    open spec fn view(&self) -> StateRole {
        match self {
            SerdeStateRole::Follower => StateRole::Follower,
            SerdeStateRole::Candidate => StateRole::Candidate,
            SerdeStateRole::Leader => StateRole::Leader,
            SerdeStateRole::PreCandidate => StateRole::PreCandidate,
        }
    }
}

impl From<StateRole> for SerdeStateRole {
    fn from(role: StateRole) -> (r: SerdeStateRole)
        ensures
            r@ == role,
            role == StateRole::Follower ==> r == SerdeStateRole::Follower,
            role == StateRole::Candidate ==> r == SerdeStateRole::Candidate,
            role == StateRole::Leader ==> r == SerdeStateRole::Leader,
            role == StateRole::PreCandidate ==> r == SerdeStateRole::PreCandidate,
    {
        match role {
            StateRole::Follower => SerdeStateRole::Follower,
            StateRole::Candidate => SerdeStateRole::Candidate,
            StateRole::Leader => SerdeStateRole::Leader,
            StateRole::PreCandidate => SerdeStateRole::PreCandidate,
        }
    }
}

impl vstd::std_specs::convert::FromSpecImpl<StateRole> for SerdeStateRole {
    open spec fn obeys_from_spec() -> bool {
        false
    }

    open spec fn from_spec(v: StateRole) -> SerdeStateRole {
        choose|r: SerdeStateRole| r@ == v
    }
}

impl From<SerdeStateRole> for StateRole {
    fn from(role: SerdeStateRole) -> (r: StateRole)
        ensures
            r == role@,
            role == SerdeStateRole::Follower ==> r == StateRole::Follower,
            role == SerdeStateRole::Candidate ==> r == StateRole::Candidate,
            role == SerdeStateRole::Leader ==> r == StateRole::Leader,
            role == SerdeStateRole::PreCandidate ==> r == StateRole::PreCandidate,
    {
        match role {
            SerdeStateRole::Follower => StateRole::Follower,
            SerdeStateRole::Candidate => StateRole::Candidate,
            SerdeStateRole::Leader => StateRole::Leader,
            SerdeStateRole::PreCandidate => StateRole::PreCandidate,
        }
    }
}

impl vstd::std_specs::convert::FromSpecImpl<SerdeStateRole> for StateRole {
    open spec fn obeys_from_spec() -> bool {
        true
    }

    open spec fn from_spec(v: SerdeStateRole) -> StateRole {
        v@
    }
}

// ---------------------------------------------------------------------------
// Read-only option
// ---------------------------------------------------------------------------

/// Serializable mirror of the way read-only requests are served.
#[derive(Clone, Copy)]
pub enum SerdeReadOnlyOption {
    Safe,
    LeaseBased,
}

impl View for SerdeReadOnlyOption {
    type V = ReadOnlyOption;

    open spec fn view(&self) -> ReadOnlyOption {
        match self {
            SerdeReadOnlyOption::Safe => ReadOnlyOption::Safe,
            SerdeReadOnlyOption::LeaseBased => ReadOnlyOption::LeaseBased,
        }
    }
}

impl From<ReadOnlyOption> for SerdeReadOnlyOption {
    fn from(opt: ReadOnlyOption) -> (r: SerdeReadOnlyOption)
        ensures
            r@ == opt,
            opt == ReadOnlyOption::Safe ==> r == SerdeReadOnlyOption::Safe,
            opt == ReadOnlyOption::LeaseBased ==> r == SerdeReadOnlyOption::LeaseBased,
    {
        match opt {
            ReadOnlyOption::Safe => SerdeReadOnlyOption::Safe,
            ReadOnlyOption::LeaseBased => SerdeReadOnlyOption::LeaseBased,
        }
    }
}

impl vstd::std_specs::convert::FromSpecImpl<ReadOnlyOption> for SerdeReadOnlyOption {
    open spec fn obeys_from_spec() -> bool {
        false
    }

    open spec fn from_spec(v: ReadOnlyOption) -> SerdeReadOnlyOption {
        choose|r: SerdeReadOnlyOption| r@ == v
    }
}

impl From<SerdeReadOnlyOption> for ReadOnlyOption {
    fn from(opt: SerdeReadOnlyOption) -> (r: ReadOnlyOption)
        ensures
            r == opt@,
            opt == SerdeReadOnlyOption::Safe ==> r == ReadOnlyOption::Safe,
            opt == SerdeReadOnlyOption::LeaseBased ==> r == ReadOnlyOption::LeaseBased,
    {
        match opt {
            SerdeReadOnlyOption::Safe => ReadOnlyOption::Safe,
            SerdeReadOnlyOption::LeaseBased => ReadOnlyOption::LeaseBased,
        }
    }
}

impl vstd::std_specs::convert::FromSpecImpl<SerdeReadOnlyOption> for ReadOnlyOption {
    open spec fn obeys_from_spec() -> bool {
        true
    }

    open spec fn from_spec(v: SerdeReadOnlyOption) -> ReadOnlyOption {
        v@
    }
}

// ---------------------------------------------------------------------------
// Configuration
// ---------------------------------------------------------------------------

/// Serializable mirror of a node configuration.
#[derive(Clone)]
pub struct SerdeConfig {
    pub id: u64,
    pub election_tick: usize,
    pub heartbeat_tick: usize,
    pub applied: u64,
    pub max_size_per_msg: u64,
    pub max_inflight_msgs: usize,
    pub check_quorum: bool,
    pub pre_vote: bool,
    pub min_election_tick: usize,
    pub max_election_tick: usize,
    pub read_only_option: SerdeReadOnlyOption,
    pub skip_bcast_commit: bool,
    pub batch_append: bool,
    pub priority: i64,
    pub max_uncommitted_size: u64,
    pub max_committed_size_per_ready: u64,
    pub max_apply_unpersisted_log_limit: u64,
    pub disable_proposal_forwarding: bool,
}

impl View for SerdeConfig {
    type V = ConfigView;

    open spec fn view(&self) -> ConfigView {
        ConfigView {
            id: self.id,
            election_tick: self.election_tick,
            heartbeat_tick: self.heartbeat_tick,
            applied: self.applied,
            max_size_per_msg: self.max_size_per_msg,
            max_inflight_msgs: self.max_inflight_msgs,
            check_quorum: self.check_quorum,
            pre_vote: self.pre_vote,
            min_election_tick: self.min_election_tick,
            max_election_tick: self.max_election_tick,
            read_only_option: self.read_only_option@,
            skip_bcast_commit: self.skip_bcast_commit,
            batch_append: self.batch_append,
            priority: self.priority,
            max_uncommitted_size: self.max_uncommitted_size,
            max_committed_size_per_ready: self.max_committed_size_per_ready,
            max_apply_unpersisted_log_limit: self.max_apply_unpersisted_log_limit,
            disable_proposal_forwarding: self.disable_proposal_forwarding,
        }
    }
}

impl From<Config> for SerdeConfig {
    fn from(config: Config) -> (r: SerdeConfig)
        ensures
            r@ == config@,
            r.id == config.id,
            r.election_tick == config.election_tick,
            r.heartbeat_tick == config.heartbeat_tick,
            r.applied == config.applied,
            r.max_size_per_msg == config.max_size_per_msg,
            r.max_inflight_msgs == config.max_inflight_msgs,
            r.check_quorum == config.check_quorum,
            r.pre_vote == config.pre_vote,
            r.min_election_tick == config.min_election_tick,
            r.max_election_tick == config.max_election_tick,
            r.skip_bcast_commit == config.skip_bcast_commit,
            r.batch_append == config.batch_append,
            r.priority == config.priority,
            r.max_uncommitted_size == config.max_uncommitted_size,
            r.max_committed_size_per_ready == config.max_committed_size_per_ready,
            r.max_apply_unpersisted_log_limit == config.max_apply_unpersisted_log_limit,
            r.disable_proposal_forwarding == config.disable_proposal_forwarding,
            r.read_only_option@ == config.read_only_option,
    {
        SerdeConfig {
            id: config.id,
            election_tick: config.election_tick,
            heartbeat_tick: config.heartbeat_tick,
            applied: config.applied,
            max_size_per_msg: config.max_size_per_msg,
            max_inflight_msgs: config.max_inflight_msgs,
            check_quorum: config.check_quorum,
            pre_vote: config.pre_vote,
            min_election_tick: config.min_election_tick,
            max_election_tick: config.max_election_tick,
            read_only_option: SerdeReadOnlyOption::from(config.read_only_option),
            skip_bcast_commit: config.skip_bcast_commit,
            batch_append: config.batch_append,
            priority: config.priority,
            max_uncommitted_size: config.max_uncommitted_size,
            max_committed_size_per_ready: config.max_committed_size_per_ready,
            max_apply_unpersisted_log_limit: config.max_apply_unpersisted_log_limit,
            disable_proposal_forwarding: config.disable_proposal_forwarding,
        }
    }
}

impl vstd::std_specs::convert::FromSpecImpl<Config> for SerdeConfig {
    open spec fn obeys_from_spec() -> bool {
        false
    }

    open spec fn from_spec(v: Config) -> SerdeConfig {
        choose|r: SerdeConfig| r@ == v@
    }
}

impl From<SerdeConfig> for Config {
    fn from(sconfig: SerdeConfig) -> (r: Config)
        ensures
            r@ == sconfig@,
            r.id == sconfig.id,
            r.election_tick == sconfig.election_tick,
            r.heartbeat_tick == sconfig.heartbeat_tick,
            r.applied == sconfig.applied,
            r.max_size_per_msg == sconfig.max_size_per_msg,
            r.max_inflight_msgs == sconfig.max_inflight_msgs,
            r.check_quorum == sconfig.check_quorum,
            r.pre_vote == sconfig.pre_vote,
            r.min_election_tick == sconfig.min_election_tick,
            r.max_election_tick == sconfig.max_election_tick,
            r.skip_bcast_commit == sconfig.skip_bcast_commit,
            r.batch_append == sconfig.batch_append,
            r.priority == sconfig.priority,
            r.max_uncommitted_size == sconfig.max_uncommitted_size,
            r.max_committed_size_per_ready == sconfig.max_committed_size_per_ready,
            r.max_apply_unpersisted_log_limit == sconfig.max_apply_unpersisted_log_limit,
            r.disable_proposal_forwarding == sconfig.disable_proposal_forwarding,
            r.read_only_option == sconfig.read_only_option@,
    {
        Config {
            id: sconfig.id,
            election_tick: sconfig.election_tick,
            heartbeat_tick: sconfig.heartbeat_tick,
            applied: sconfig.applied,
            max_size_per_msg: sconfig.max_size_per_msg,
            max_inflight_msgs: sconfig.max_inflight_msgs,
            check_quorum: sconfig.check_quorum,
            pre_vote: sconfig.pre_vote,
            min_election_tick: sconfig.min_election_tick,
            max_election_tick: sconfig.max_election_tick,
            read_only_option: ReadOnlyOption::from(sconfig.read_only_option),
            skip_bcast_commit: sconfig.skip_bcast_commit,
            batch_append: sconfig.batch_append,
            priority: sconfig.priority,
            max_uncommitted_size: sconfig.max_uncommitted_size,
            max_committed_size_per_ready: sconfig.max_committed_size_per_ready,
            max_apply_unpersisted_log_limit: sconfig.max_apply_unpersisted_log_limit,
            disable_proposal_forwarding: sconfig.disable_proposal_forwarding,
        }
    }
}

impl vstd::std_specs::convert::FromSpecImpl<SerdeConfig> for Config {
    open spec fn obeys_from_spec() -> bool {
        false
    }

    open spec fn from_spec(v: SerdeConfig) -> Config {
        choose|r: Config| r@ == v@
    }
}

// ---------------------------------------------------------------------------
// Uncommitted state
// ---------------------------------------------------------------------------

/// Serializable mirror of the bookkeeping of uncommitted entries.
#[derive(Clone)]
pub struct SerdeUncommittedState {
    pub max_uncommitted_size: usize,
    pub uncommitted_size: usize,
    pub last_log_tail_index: u64,
}

impl View for SerdeUncommittedState {
    type V = UncommittedState;

    open spec fn view(&self) -> UncommittedState {
        UncommittedState {
            max_uncommitted_size: self.max_uncommitted_size,
            uncommitted_size: self.uncommitted_size,
            last_log_tail_index: self.last_log_tail_index,
        }
    }
}

impl From<UncommittedState> for SerdeUncommittedState {
    fn from(us: UncommittedState) -> (r: SerdeUncommittedState)
        ensures
            r@ == us,
            r.max_uncommitted_size == us.max_uncommitted_size,
            r.uncommitted_size == us.uncommitted_size,
            r.last_log_tail_index == us.last_log_tail_index,
    {
        SerdeUncommittedState {
            max_uncommitted_size: us.max_uncommitted_size,
            uncommitted_size: us.uncommitted_size,
            last_log_tail_index: us.last_log_tail_index,
        }
    }
}

impl vstd::std_specs::convert::FromSpecImpl<UncommittedState> for SerdeUncommittedState {
    open spec fn obeys_from_spec() -> bool {
        false
    }

    open spec fn from_spec(v: UncommittedState) -> SerdeUncommittedState {
        choose|r: SerdeUncommittedState| r@ == v
    }
}

impl From<SerdeUncommittedState> for UncommittedState {
    fn from(sus: SerdeUncommittedState) -> (r: UncommittedState)
        ensures
            r == sus@,
            r.max_uncommitted_size == sus.max_uncommitted_size,
            r.uncommitted_size == sus.uncommitted_size,
            r.last_log_tail_index == sus.last_log_tail_index,
    {
        UncommittedState {
            max_uncommitted_size: sus.max_uncommitted_size,
            uncommitted_size: sus.uncommitted_size,
            last_log_tail_index: sus.last_log_tail_index,
        }
    }
}

impl vstd::std_specs::convert::FromSpecImpl<SerdeUncommittedState> for UncommittedState {
    open spec fn obeys_from_spec() -> bool {
        true
    }

    open spec fn from_spec(v: SerdeUncommittedState) -> UncommittedState {
        v@
    }
}

// ---------------------------------------------------------------------------
// Read state
// ---------------------------------------------------------------------------

/// Serializable mirror of a read state.
#[derive(Clone)]
pub struct SerdeReadState {
    pub index: u64,
    pub request_ctx: Vec<u8>,
}

impl View for SerdeReadState {
    type V = ReadStateView;

    open spec fn view(&self) -> ReadStateView {
        ReadStateView { index: self.index, request_ctx: self.request_ctx@ }
    }
}

impl<'a> From<&'a ReadState> for SerdeReadState {
    fn from(rs: &'a ReadState) -> (r: SerdeReadState)
        ensures
            r@ == rs@,
    {
        SerdeReadState { index: rs.index, request_ctx: copy_bytes(&rs.request_ctx) }
    }
}

impl<'a> vstd::std_specs::convert::FromSpecImpl<&'a ReadState> for SerdeReadState {
    open spec fn obeys_from_spec() -> bool {
        false
    }

    open spec fn from_spec(v: &'a ReadState) -> SerdeReadState {
        choose|r: SerdeReadState| r@ == v@
    }
}

impl From<ReadState> for SerdeReadState {
    fn from(rs: ReadState) -> (r: SerdeReadState)
        ensures
            r@ == rs@,
    {
        SerdeReadState { index: rs.index, request_ctx: rs.request_ctx }
    }
}

impl vstd::std_specs::convert::FromSpecImpl<ReadState> for SerdeReadState {
    open spec fn obeys_from_spec() -> bool {
        false
    }

    open spec fn from_spec(v: ReadState) -> SerdeReadState {
        choose|r: SerdeReadState| r@ == v@
    }
}

impl From<SerdeReadState> for ReadState {
    fn from(srs: SerdeReadState) -> (r: ReadState)
        ensures
            r@ == srs@,
    {
        ReadState { index: srs.index, request_ctx: srs.request_ctx }
    }
}

impl vstd::std_specs::convert::FromSpecImpl<SerdeReadState> for ReadState {
    open spec fn obeys_from_spec() -> bool {
        false
    }

    open spec fn from_spec(v: SerdeReadState) -> ReadState {
        choose|r: ReadState| r@ == v@
    }
}

// ---------------------------------------------------------------------------
// Soft state, ready record
// ---------------------------------------------------------------------------

/// Serializable mirror of a soft state.
pub struct SerdeSoftState {
    pub leader_id: u64,
    pub raft_state: SerdeStateRole,
}

impl View for SerdeSoftState {
    type V = SoftState;

    open spec fn view(&self) -> SoftState {
        SoftState { leader_id: self.leader_id, raft_state: self.raft_state@ }
    }
}

impl SerdeSoftState {
    /// The mirror of a soft state.
    pub fn from_soft_state(ss: SoftState) -> (r: SerdeSoftState)
        ensures
            r@ == ss,
    {
        SerdeSoftState { leader_id: ss.leader_id, raft_state: SerdeStateRole::from(ss.raft_state) }
    }

    /// The soft state that this mirror holds.
    pub fn into_soft_state(self) -> (r: SoftState)
        ensures
            r == self@,
    {
        SoftState { leader_id: self.leader_id, raft_state: StateRole::from(self.raft_state) }
    }
}

/// Serializable mirror of a ready record.
pub struct SerdeReadyRecord {
    pub number: u64,
    pub last_entry: Option<(u64, u64)>,
    pub snapshot: Option<(u64, u64)>,
}

impl View for SerdeReadyRecord {
    type V = ReadyRecord;

    open spec fn view(&self) -> ReadyRecord {
        ReadyRecord {
            number: self.number,
            last_entry: self.last_entry,
            snapshot: self.snapshot,
        }
    }
}

impl SerdeReadyRecord {
    /// The mirror of a ready record.
    pub fn from_ready_record(record: ReadyRecord) -> (r: SerdeReadyRecord)
        ensures
            r@ == record,
    {
        SerdeReadyRecord {
            number: record.number,
            last_entry: record.last_entry,
            snapshot: record.snapshot,
        }
    }

    /// The ready record that this mirror holds.
    pub fn into_ready_record(self) -> (r: ReadyRecord)
        ensures
            r == self@,
    {
        ReadyRecord { number: self.number, last_entry: self.last_entry, snapshot: self.snapshot }
    }
}


// ---------------------------------------------------------------------------
// Read index status
// ---------------------------------------------------------------------------

/// What the mirror of a read index status holds.
pub struct SerdeReadIndexStatusView {
    pub req: MessageView,
    pub index: u64,
    pub acks: Seq<u64>,
}

impl SerdeReadIndexStatusView {
    /// This mirror holds the status `s`: the same request and index, and each
    /// acknowledging peer once.
    pub open spec fn mirrors(self, s: ReadIndexStatusView) -> bool {
        &&& self.req == s.req
        &&& self.index == s.index
        &&& self.acks.no_duplicates()
        &&& self.acks.to_set() == s.acks
    }

    /// The status that this mirror reads back as.
    pub open spec fn restored(self) -> ReadIndexStatusView {
        ReadIndexStatusView { req: self.req.decoded(), index: self.index, acks: self.acks.to_set() }
    }
}

/// Serializable mirror of the status of a pending read-only request.
#[derive(Clone)]
pub struct SerdeReadIndexStatus {
    pub req: SerdeMessage,
    pub index: u64,
    pub acks: Vec<u64>,
}

impl View for SerdeReadIndexStatus {
    type V = SerdeReadIndexStatusView;

    open spec fn view(&self) -> SerdeReadIndexStatusView {
        SerdeReadIndexStatusView { req: self.req@, index: self.index, acks: self.acks@ }
    }
}

impl SerdeReadIndexStatus {
    /// The mirror of a read index status, its acknowledging peers in the
    /// set's iteration order; a snapshot in the request must have its
    /// metadata.
    pub fn from_read_index_status(status: &ReadIndexStatus) -> (r: SerdeReadIndexStatus)
        requires
            status@.req.snapshot_complete(),
        ensures
            r@.mirrors(status@),
            status@.req.well_coded(),
            r.index == status.index,
            r.req@ == status.req@,
            r.acks@.to_set() == status.acks@,
    {
        SerdeReadIndexStatus {
            req: SerdeMessage::from_message(&status.req),
            index: status.index,
            acks: set_to_ids(&status.acks),
        }
    }
}

impl From<SerdeReadIndexStatus> for ReadIndexStatus {
    fn from(status: SerdeReadIndexStatus) -> (r: ReadIndexStatus)
        ensures
            r@ == status@.restored(),
            r.index == status.index,
            r.acks@ == status.acks@.to_set(),
    {
        ReadIndexStatus {
            req: Message::from(status.req),
            index: status.index,
            acks: ids_to_set(&status.acks),
        }
    }
}

impl vstd::std_specs::convert::FromSpecImpl<SerdeReadIndexStatus> for ReadIndexStatus {
    open spec fn obeys_from_spec() -> bool {
        false
    }

    open spec fn from_spec(v: SerdeReadIndexStatus) -> ReadIndexStatus {
        choose|r: ReadIndexStatus| r@ == v@.restored()
    }
}

// ---------------------------------------------------------------------------
// Read-only bookkeeping
// ---------------------------------------------------------------------------

/// A list of keyed pairs with the pair `(k, v)` put in: in place of the pair
/// with key `k`, or at the end when there is none.
pub open spec fn upsert<V>(pairs: Seq<(Seq<u8>, V)>, k: Seq<u8>, v: V) -> Seq<(Seq<u8>, V)> {
    if exists|i: int| 0 <= i < pairs.len() && #[trigger] pairs[i].0 == k {
        let i: int = choose|i: int| 0 <= i < pairs.len() && #[trigger] pairs[i].0 == k;
        pairs.update(i, (k, v))
    } else {
        pairs.push((k, v))
    }
}

/// The pairs of a list put in one after another: each key once, where it
/// first came, with the value that came last for it.
pub open spec fn collected<V>(pairs: Seq<(Seq<u8>, V)>) -> Seq<(Seq<u8>, V)>
    decreases pairs.len(),
{
    if pairs.len() == 0 {
        Seq::empty()
    } else {
        upsert(collected(pairs.drop_last()), pairs.last().0, pairs.last().1)
    }
}

/// What the mirror of the read-only bookkeeping holds.
pub struct SerdeReadOnlyView {
    pub option: ReadOnlyOption,
    pub pending_read_index: Seq<(Seq<u8>, SerdeReadIndexStatusView)>,
    pub read_index_queue: Seq<Seq<u8>>,
}

impl SerdeReadOnlyView {
    /// This mirror holds `ro`: the same option and queue, and each pending
    /// request, in order, under the same context.
    pub open spec fn mirrors(self, ro: ReadOnlyView) -> bool {
        &&& self.option == ro.option
        &&& self.pending_read_index.len() == ro.pending_read_index.len()
        &&& forall|i: int|
            0 <= i < self.pending_read_index.len() ==> {
                &&& #[trigger] self.pending_read_index[i].0 == ro.pending_read_index[i].0
                &&& self.pending_read_index[i].1.mirrors(ro.pending_read_index[i].1)
            }
        &&& self.read_index_queue == ro.read_index_queue
    }

    /// The pending requests that this mirror reads back as, before they are
    /// collected by context.
    pub open spec fn restored_pending(self) -> Seq<(Seq<u8>, ReadIndexStatusView)> {
        self.pending_read_index.map_values(
            |p: (Seq<u8>, SerdeReadIndexStatusView)| (p.0, p.1.restored()),
        )
    }

    /// The bookkeeping that this mirror reads back as: a context that comes
    /// twice keeps the status that came last.
    pub open spec fn restored(self) -> ReadOnlyView {
        ReadOnlyView {
            option: self.option,
            pending_read_index: collected(self.restored_pending()),
            read_index_queue: self.read_index_queue,
        }
    }
}

/// Serializable mirror of the read-only bookkeeping.
#[derive(Clone)]
pub struct SerdeReadOnly {
    pub option: SerdeReadOnlyOption,
    pub pending_read_index: Vec<(Vec<u8>, SerdeReadIndexStatus)>,
    pub read_index_queue: Vec<Vec<u8>>,
}

impl View for SerdeReadOnly {
    type V = SerdeReadOnlyView;

    open spec fn view(&self) -> SerdeReadOnlyView {
        SerdeReadOnlyView {
            option: self.option@,
            pending_read_index: self.pending_read_index@.map_values(
                |p: (Vec<u8>, SerdeReadIndexStatus)| (p.0@, p.1@),
            ),
            read_index_queue: self.read_index_queue@.map_values(|c: Vec<u8>| c@),
        }
    }
}

/// Whether a read-only bookkeeping's pending requests carry only snapshots
/// that have their metadata.
pub open spec fn read_only_snapshots_complete(ro: ReadOnlyView) -> bool {
    forall|i: int|
        0 <= i < ro.pending_read_index.len()
            ==> (#[trigger] ro.pending_read_index[i]).1.req.snapshot_complete()
}

/// Whether the kind codes of a read-only bookkeeping's pending requests, and
/// of their entries, name kinds.
pub open spec fn read_only_well_coded(ro: ReadOnlyView) -> bool {
    forall|i: int|
        0 <= i < ro.pending_read_index.len()
            ==> (#[trigger] ro.pending_read_index[i]).1.req.well_coded()
}

impl SerdeReadOnly {
    /// The mirror of the read-only bookkeeping; a snapshot in a pending
    /// request must have its metadata. The kind codes of the pending requests
    /// always name kinds.
    pub fn from_read_only(ro: &ReadOnly) -> (r: SerdeReadOnly)
        requires
            read_only_snapshots_complete(ro@),
        ensures
            r@.mirrors(ro@),
            read_only_well_coded(ro@),
    {
        let mut pending: Vec<(Vec<u8>, SerdeReadIndexStatus)> = Vec::new();
        for i in 0..ro.pending_read_index.len()
            invariant
                read_only_snapshots_complete(ro@),
                pending@.len() == i,
                forall|j: int|
                    0 <= j < i ==> {
                        &&& (#[trigger] pending@[j]).0@ == ro.pending_read_index@[j].0@
                        &&& pending@[j].1@.mirrors(ro.pending_read_index@[j].1@)
                        &&& ro@.pending_read_index[j].1.req.well_coded()
                    },
        {
            let entry = &ro.pending_read_index[i];
            assert(ro@.pending_read_index[i as int].1 == entry.1@);
            pending.push(
                (copy_bytes(&entry.0), SerdeReadIndexStatus::from_read_index_status(&entry.1)),
            );
        }
        let mut queue: Vec<Vec<u8>> = Vec::new();
        for i in 0..ro.read_index_queue.len()
            invariant
                queue@.len() == i,
                forall|j: int|
                    0 <= j < i ==> (#[trigger] queue@[j])@ == ro.read_index_queue@[j]@,
        {
            queue.push(copy_bytes(&ro.read_index_queue[i]));
        }
        let r = SerdeReadOnly {
            option: SerdeReadOnlyOption::from(ro.option),
            pending_read_index: pending,
            read_index_queue: queue,
        };
        assert(r@.read_index_queue =~= ro@.read_index_queue);
        assert forall|i: int| 0 <= i < ro@.pending_read_index.len() implies (
        #[trigger] ro@.pending_read_index[i]).1.req.well_coded() by {
            assert(r.pending_read_index@[i].0@ == ro.pending_read_index@[i].0@);
        }
        r
    }
}

/// Whether two byte strings are equal.
pub fn bytes_equal(a: &Vec<u8>, b: &Vec<u8>) -> (r: bool)
    ensures
        r == (a@ == b@),
{
    if a.len() != b.len() {
        return false;
    }
    for i in 0..a.len()
        invariant
            a@.len() == b@.len(),
            forall|j: int| 0 <= j < i ==> a@[j] == b@[j],
    {
        if a[i] != b[i] {
            return false;
        }
    }
    assert(a@ =~= b@);
    true
}

/// The position of the pair with key `k`, if there is one.
fn find_key(pairs: &Vec<(Vec<u8>, ReadIndexStatus)>, k: &Vec<u8>) -> (r: Option<usize>)
    ensures
        match r {
            Some(j) => j < pairs@.len() && pairs@[j as int].0@ == k@,
            None => forall|i: int| 0 <= i < pairs@.len() ==> (#[trigger] pairs@[i]).0@ != k@,
        },
{
    for i in 0..pairs.len()
        invariant
            forall|j: int| 0 <= j < i ==> (#[trigger] pairs@[j]).0@ != k@,
    {
        if bytes_equal(&pairs[i].0, k) {
            return Some(i);
        }
    }
    None
}

/// The view of a list of pending requests.
pub open spec fn pending_view(pairs: Seq<(Vec<u8>, ReadIndexStatus)>) -> Seq<
    (Seq<u8>, ReadIndexStatusView),
> {
    pairs.map_values(|p: (Vec<u8>, ReadIndexStatus)| (p.0@, p.1@))
}

/// The pending requests of a mirror, collected by context: each context once,
/// where it first came, with the status that came last for it.
fn collect_pending(pairs: Vec<(Vec<u8>, SerdeReadIndexStatus)>) -> (r: Vec<
    (Vec<u8>, ReadIndexStatus),
>)
    ensures
        pending_view(r@) == collected(
            pairs@.map_values(
                |p: (Vec<u8>, SerdeReadIndexStatus)| (p.0@, p.1@.restored()),
            ),
        ),
        keys_distinct(pending_view(r@)),
{
    let ghost input = pairs@.map_values(
        |p: (Vec<u8>, SerdeReadIndexStatus)| (p.0@, p.1@.restored()),
    );
    let mut out: Vec<(Vec<u8>, ReadIndexStatus)> = Vec::new();
    for p in it: pairs.into_iter()
        invariant
            it.seq() == pairs@,
            input == pairs@.map_values(
                |p: (Vec<u8>, SerdeReadIndexStatus)| (p.0@, p.1@.restored()),
            ),
            pending_view(out@) == collected(input.take(it.index())),
            keys_distinct(pending_view(out@)),
    {
        let ghost i: int = it.index();
        let ghost before = out@;
        let (k, status) = p;
        let status = ReadIndexStatus::from(status);
        let found = find_key(&out, &k);
        proof {
            assert(input.take(i + 1).drop_last() =~= input.take(i));
            assert(input.take(i + 1).last() == (k@, status@));
        }
        match found {
            Some(j) => {
                out.set(j, (k, status));
                proof {
                    let pv = pending_view(before);
                    assert(pv[j as int].0 == k@);
                    let c: int = choose|c: int| 0 <= c < pv.len() && #[trigger] pv[c].0 == k@;
                    assert(c == j);
                    assert(pending_view(out@) =~= pv.update(j as int, (k@, status@)));
                }
            },
            None => {
                out.push((k, status));
                proof {
                    let pv = pending_view(before);
                    assert(!exists|c: int| 0 <= c < pv.len() && #[trigger] pv[c].0 == k@);
                    assert(pending_view(out@) =~= pv.push((k@, status@)));
                }
            },
        }
    }
    proof {
        assert(input.take(input.len() as int) =~= input);
    }
    out
}

impl From<SerdeReadOnly> for ReadOnly {
    fn from(sro: SerdeReadOnly) -> (r: ReadOnly)
        ensures
            r@ == sro@.restored(),
            r@.wf(),
    {
        let ghost serde_view = sro@;
        let pending = collect_pending(sro.pending_read_index);
        let mut queue: VecDeque<Vec<u8>> = VecDeque::new();
        for c in it: sro.read_index_queue.into_iter()
            invariant
                it.seq() == sro.read_index_queue@,
                queue@.len() == it.index(),
                forall|j: int|
                    0 <= j < it.index() ==> (#[trigger] queue@[j])@ == sro.read_index_queue@[j]@,
        {
            queue.push_back(c);
        }
        let r = ReadOnly {
            option: ReadOnlyOption::from(sro.option),
            pending_read_index: pending,
            read_index_queue: queue,
        };
        proof {
            assert(r@.read_index_queue =~= serde_view.read_index_queue);
            assert(serde_view.restored_pending() =~= sro.pending_read_index@.map_values(
                |p: (Vec<u8>, SerdeReadIndexStatus)| (p.0@, p.1@.restored()),
            ));
        }
        r
    }
}

impl vstd::std_specs::convert::FromSpecImpl<SerdeReadOnly> for ReadOnly {
    open spec fn obeys_from_spec() -> bool {
        false
    }

    open spec fn from_spec(v: SerdeReadOnly) -> ReadOnly {
        choose|r: ReadOnly| r@ == v@.restored()
    }
}

} // verus!
