//! What the views record: each view of a record stands for the record's own
//! fields, under their own names, and each mirror of an enumeration stands for
//! the variant of the same name; the wire code of each kind is its number in
//! the protobuf schema of the messages.

use crate::eraftpb::{
    decoded_entry_type, decoded_message_type, entry_type_of_code, message_type_of_code, ConfState, Entry, EntryType, HardState, Message,
    MessageType, Snapshot, SnapshotMetadata,
};
use crate::raft_state::{
    Config, RaftCore, RaftLog, RawNode, ReadIndexStatus, ReadOnlyOption, ReadState, StateRole,
    Unstable,
};
use crate::serde_log::SerdeRaftLog;
use crate::serde_messages::{
    SerdeConfState, SerdeEntry, SerdeHardState, SerdeMessage, SerdeSnapshot, SerdeSnapshotMetadata,
};
use crate::serde_node::{SerdeRaftCore, SerdeRawNode};
use crate::serde_state::{
    SerdeConfig, SerdeReadIndexStatus, SerdeReadOnlyOption, SerdeReadState, SerdeReadyRecord,
    SerdeSoftState, SerdeStateRole, SerdeUncommittedState,
};
use crate::serde_tracker::{
    SerdeConfiguration, SerdeInflights, SerdeJointConfig, SerdeProgress, SerdeProgressState,
    SerdeProgressTracker,
};
use crate::tracker::{Configuration, Inflights, JointConfig, Progress, ProgressState};
use vstd::prelude::*;

verus! {

/// Each entry kind's wire code is its number in the protobuf schema of the
/// messages, and a code reads back as the kind that has it; other codes name
/// no kind.
pub proof fn entry_type_wire_codes()
    ensures
        EntryType::EntryNormal.code() == 0,
        EntryType::EntryConfChange.code() == 1,
        EntryType::EntryConfChangeV2.code() == 2,
        entry_type_of_code(0) == Some(EntryType::EntryNormal),
        entry_type_of_code(1) == Some(EntryType::EntryConfChange),
        entry_type_of_code(2) == Some(EntryType::EntryConfChangeV2),
        forall|v: i32| (v < 0 || v > 2) ==> entry_type_of_code(v) is None,
{
}

/// Each message kind's wire code is its number in the protobuf schema of the
/// messages, and a code reads back as the kind that has it; other codes name
/// no kind.
pub proof fn message_type_wire_codes()
    ensures
        MessageType::MsgHup.code() == 0,
        MessageType::MsgBeat.code() == 1,
        MessageType::MsgPropose.code() == 2,
        MessageType::MsgAppend.code() == 3,
        MessageType::MsgAppendResponse.code() == 4,
        MessageType::MsgRequestVote.code() == 5,
        MessageType::MsgRequestVoteResponse.code() == 6,
        MessageType::MsgSnapshot.code() == 7,
        MessageType::MsgHeartbeat.code() == 8,
        MessageType::MsgHeartbeatResponse.code() == 9,
        MessageType::MsgUnreachable.code() == 10,
        MessageType::MsgSnapStatus.code() == 11,
        MessageType::MsgCheckQuorum.code() == 12,
        MessageType::MsgTransferLeader.code() == 13,
        MessageType::MsgTimeoutNow.code() == 14,
        MessageType::MsgReadIndex.code() == 15,
        MessageType::MsgReadIndexResp.code() == 16,
        MessageType::MsgRequestPreVote.code() == 17,
        MessageType::MsgRequestPreVoteResponse.code() == 18,
        message_type_of_code(0) == Some(MessageType::MsgHup),
        message_type_of_code(1) == Some(MessageType::MsgBeat),
        message_type_of_code(2) == Some(MessageType::MsgPropose),
        message_type_of_code(3) == Some(MessageType::MsgAppend),
        message_type_of_code(4) == Some(MessageType::MsgAppendResponse),
        message_type_of_code(5) == Some(MessageType::MsgRequestVote),
        message_type_of_code(6) == Some(MessageType::MsgRequestVoteResponse),
        message_type_of_code(7) == Some(MessageType::MsgSnapshot),
        message_type_of_code(8) == Some(MessageType::MsgHeartbeat),
        message_type_of_code(9) == Some(MessageType::MsgHeartbeatResponse),
        message_type_of_code(10) == Some(MessageType::MsgUnreachable),
        message_type_of_code(11) == Some(MessageType::MsgSnapStatus),
        message_type_of_code(12) == Some(MessageType::MsgCheckQuorum),
        message_type_of_code(13) == Some(MessageType::MsgTransferLeader),
        message_type_of_code(14) == Some(MessageType::MsgTimeoutNow),
        message_type_of_code(15) == Some(MessageType::MsgReadIndex),
        message_type_of_code(16) == Some(MessageType::MsgReadIndexResp),
        message_type_of_code(17) == Some(MessageType::MsgRequestPreVote),
        message_type_of_code(18) == Some(MessageType::MsgRequestPreVoteResponse),
        forall|v: i32| (v < 0 || v > 18) ==> message_type_of_code(v) is None,
{
}

/// A kind code read from the wire keeps its value when it names an entry
/// kind, and reads as the code of `EntryNormal` otherwise.
pub proof fn decoded_entry_type_codes(v: i32)
    ensures
        0 <= v <= 2 ==> decoded_entry_type(v) == v,
        (v < 0 || v > 2) ==> decoded_entry_type(v) == EntryType::EntryNormal.code(),
{
}

/// A kind code read from the wire keeps its value when it names a message
/// kind, and reads as the code of `MsgHup` otherwise.
pub proof fn decoded_message_type_codes(v: i32)
    ensures
        0 <= v <= 18 ==> decoded_message_type(v) == v,
        (v < 0 || v > 18) ==> decoded_message_type(v) == MessageType::MsgHup.code(),
{
}

/// Each role's mirror stands for the role of the same name.
pub proof fn state_role_mirror_variants()
    ensures
        (SerdeStateRole::Follower)@ == StateRole::Follower,
        (SerdeStateRole::Candidate)@ == StateRole::Candidate,
        (SerdeStateRole::Leader)@ == StateRole::Leader,
        (SerdeStateRole::PreCandidate)@ == StateRole::PreCandidate,
{
}

/// Each read-only option's mirror stands for the option of the same name.
pub proof fn read_only_option_mirror_variants()
    ensures
        (SerdeReadOnlyOption::Safe)@ == ReadOnlyOption::Safe,
        (SerdeReadOnlyOption::LeaseBased)@ == ReadOnlyOption::LeaseBased,
{
}

/// Each replication state's mirror stands for the state of the same name.
pub proof fn progress_state_mirror_variants()
    ensures
        (SerdeProgressState::Probe)@ == ProgressState::Probe,
        (SerdeProgressState::Replicate)@ == ProgressState::Replicate,
        (SerdeProgressState::Snapshot)@ == ProgressState::Snapshot,
{
}

/// A configuration's view records each of its settings under its own name.
pub proof fn config_view_fields(c: Config)
    ensures
        c@.id == c.id,
        c@.election_tick == c.election_tick,
        c@.heartbeat_tick == c.heartbeat_tick,
        c@.applied == c.applied,
        c@.max_size_per_msg == c.max_size_per_msg,
        c@.max_inflight_msgs == c.max_inflight_msgs,
        c@.check_quorum == c.check_quorum,
        c@.pre_vote == c.pre_vote,
        c@.min_election_tick == c.min_election_tick,
        c@.max_election_tick == c.max_election_tick,
        c@.skip_bcast_commit == c.skip_bcast_commit,
        c@.batch_append == c.batch_append,
        c@.priority == c.priority,
        c@.max_uncommitted_size == c.max_uncommitted_size,
        c@.max_committed_size_per_ready == c.max_committed_size_per_ready,
        c@.max_apply_unpersisted_log_limit == c.max_apply_unpersisted_log_limit,
        c@.disable_proposal_forwarding == c.disable_proposal_forwarding,
        c@.read_only_option == c.read_only_option,
{
}

/// A configuration mirror's view records each of its settings under its own
/// name.
pub proof fn serde_config_view_fields(s: SerdeConfig)
    ensures
        s@.id == s.id,
        s@.election_tick == s.election_tick,
        s@.heartbeat_tick == s.heartbeat_tick,
        s@.applied == s.applied,
        s@.max_size_per_msg == s.max_size_per_msg,
        s@.max_inflight_msgs == s.max_inflight_msgs,
        s@.check_quorum == s.check_quorum,
        s@.pre_vote == s.pre_vote,
        s@.min_election_tick == s.min_election_tick,
        s@.max_election_tick == s.max_election_tick,
        s@.skip_bcast_commit == s.skip_bcast_commit,
        s@.batch_append == s.batch_append,
        s@.priority == s.priority,
        s@.max_uncommitted_size == s.max_uncommitted_size,
        s@.max_committed_size_per_ready == s.max_committed_size_per_ready,
        s@.max_apply_unpersisted_log_limit == s.max_apply_unpersisted_log_limit,
        s@.disable_proposal_forwarding == s.disable_proposal_forwarding,
        s@.read_only_option == s.read_only_option@,
{
}

/// An uncommitted-entries mirror's view records each of its sizes and its
/// tail index under its own name.
pub proof fn serde_uncommitted_state_view_fields(s: SerdeUncommittedState)
    ensures
        s@.max_uncommitted_size == s.max_uncommitted_size,
        s@.uncommitted_size == s.uncommitted_size,
        s@.last_log_tail_index == s.last_log_tail_index,
{
}

/// A hard state's view records its term, vote and commit index.
pub proof fn hard_state_view_fields(h: HardState)
    ensures
        h@.term == h.term,
        h@.vote == h.vote,
        h@.commit == h.commit,
{
}

/// A hard state mirror's view records its term, vote and commit index.
pub proof fn serde_hard_state_view_fields(s: SerdeHardState)
    ensures
        s@.term == s.term,
        s@.vote == s.vote,
        s@.commit == s.commit,
{
}

/// An entry's view records its kind's wire code, term, index, data, context
/// and sync flag.
pub proof fn entry_view_fields(e: Entry)
    ensures
        e@.entry_type == e.entry_type.code(),
        e@.term == e.term,
        e@.index == e.index,
        e@.sync_log == e.sync_log,
        e@.data == e.data@,
        e@.context == e.context@,
{
}

/// An entry mirror's view records its kind code, term, index, data, context
/// and sync flag.
pub proof fn serde_entry_view_fields(s: SerdeEntry)
    ensures
        s@.entry_type == s.entry_type,
        s@.term == s.term,
        s@.index == s.index,
        s@.sync_log == s.sync_log,
        s@.data == s.data@,
        s@.context == s.context@,
{
}

/// A configuration state's view records each of its lists and its automatic
/// leave.
pub proof fn conf_state_view_fields(c: ConfState)
    ensures
        c@.voters == c.voters@,
        c@.learners == c.learners@,
        c@.voters_outgoing == c.voters_outgoing@,
        c@.learners_next == c.learners_next@,
        c@.auto_leave == c.auto_leave,
{
}

/// A configuration state mirror's view records each of its lists and its
/// automatic leave.
pub proof fn serde_conf_state_view_fields(s: SerdeConfState)
    ensures
        s@.voters == s.voters@,
        s@.learners == s.learners@,
        s@.voters_outgoing == s.voters_outgoing@,
        s@.learners_next == s.learners_next@,
        s@.auto_leave == s.auto_leave,
{
}

/// A snapshot metadata's view records its index and term.
pub proof fn snapshot_metadata_view_fields(m: SnapshotMetadata)
    ensures
        m@.index == m.index,
        m@.term == m.term,
{
}

/// A snapshot metadata mirror's view records its index, term and
/// configuration state.
pub proof fn serde_snapshot_metadata_view_fields(s: SerdeSnapshotMetadata)
    ensures
        s@.index == s.index,
        s@.term == s.term,
        s@.conf_state == (match s.conf_state { Some(c) => Some(c@), None => None }),
{
}

/// A snapshot's view records its data.
pub proof fn snapshot_view_fields(s: Snapshot)
    ensures
        s@.data == s.data@,
{
}

/// A snapshot mirror's view records its data and its metadata.
pub proof fn serde_snapshot_view_fields(s: SerdeSnapshot)
    ensures
        s@.data == s.data@,
        s@.metadata == Some(s.metadata@),
{
}

/// A message's view records its kind's wire code and each of its scalar
/// fields and its context under its own name.
pub proof fn message_view_fields(m: Message)
    ensures
        m@.msg_type == m.msg_type.code(),
        m@.to == m.to,
        m@.from == m.from,
        m@.term == m.term,
        m@.log_term == m.log_term,
        m@.index == m.index,
        m@.commit == m.commit,
        m@.commit_term == m.commit_term,
        m@.request_snapshot == m.request_snapshot,
        m@.reject == m.reject,
        m@.reject_hint == m.reject_hint,
        m@.deprecated_priority == m.deprecated_priority,
        m@.priority == m.priority,
        m@.context == m.context@,
{
}

/// A message mirror's view records its kind code, each of its scalar fields,
/// its context, entries and snapshot under its own name.
pub proof fn serde_message_view_fields(s: SerdeMessage)
    ensures
        s@.msg_type == s.msg_type,
        s@.to == s.to,
        s@.from == s.from,
        s@.term == s.term,
        s@.log_term == s.log_term,
        s@.index == s.index,
        s@.commit == s.commit,
        s@.commit_term == s.commit_term,
        s@.request_snapshot == s.request_snapshot,
        s@.reject == s.reject,
        s@.reject_hint == s.reject_hint,
        s@.deprecated_priority == s.deprecated_priority,
        s@.priority == s.priority,
        s@.context == s.context@,
        s@.entries.len() == s.entries@.len(),
        forall|i: int| 0 <= i < s.entries@.len() ==> #[trigger] s@.entries[i] == s.entries@[i]@,
        s@.snapshot == (match s.snapshot { Some(x) => Some(x@), None => None }),
{
}

/// A read state's view records its index and request context.
pub proof fn read_state_view_fields(r: ReadState)
    ensures
        r@.index == r.index,
        r@.request_ctx == r.request_ctx@,
{
}

/// A read state mirror's view records its index and request context.
pub proof fn serde_read_state_view_fields(s: SerdeReadState)
    ensures
        s@.index == s.index,
        s@.request_ctx == s.request_ctx@,
{
}

/// A read-index status's view records its request, index and acks.
pub proof fn read_index_status_view_fields(r: ReadIndexStatus)
    ensures
        r@.index == r.index,
        r@.req == r.req@,
        r@.acks == r.acks@,
{
}

/// A read-index status mirror's view records its request, index and acks.
pub proof fn serde_read_index_status_view_fields(s: SerdeReadIndexStatus)
    ensures
        s@.index == s.index,
        s@.req == s.req@,
        s@.acks == s.acks@,
{
}

/// A soft state mirror's view records its leader and role.
pub proof fn serde_soft_state_view_fields(s: SerdeSoftState)
    ensures
        s@.leader_id == s.leader_id,
        s@.raft_state == s.raft_state@,
{
}

/// A ready record mirror's view records its number, last entry and snapshot.
pub proof fn serde_ready_record_view_fields(s: SerdeReadyRecord)
    ensures
        s@.number == s.number,
        s@.last_entry == s.last_entry,
        s@.snapshot == s.snapshot,
{
}

/// An in-flight window's view records its start, count, capacity, buffer and
/// pending capacity.
pub proof fn inflights_view_fields(i: Inflights)
    ensures
        i@.start == i.start,
        i@.count == i.count,
        i@.cap == i.cap,
        i@.incoming_cap == i.incoming_cap,
        i@.buffer == i.buffer@,
{
}

/// An in-flight window mirror's view records its start, count, capacity,
/// buffer and pending capacity.
pub proof fn serde_inflights_view_fields(s: SerdeInflights)
    ensures
        s@.start == s.start,
        s@.count == s.count,
        s@.cap == s.cap,
        s@.incoming_cap == s.incoming_cap,
        s@.buffer == s.buffer@,
{
}

/// A progress record's view records each of its fields under its own name.
pub proof fn progress_view_fields(p: Progress)
    ensures
        p@.matched == p.matched,
        p@.next_idx == p.next_idx,
        p@.paused == p.paused,
        p@.pending_snapshot == p.pending_snapshot,
        p@.pending_request_snapshot == p.pending_request_snapshot,
        p@.recent_active == p.recent_active,
        p@.commit_group_id == p.commit_group_id,
        p@.committed_index == p.committed_index,
        p@.state == p.state,
        p@.ins == p.ins@,
{
}

/// A progress mirror's view records each of its fields under its own name.
pub proof fn serde_progress_view_fields(s: SerdeProgress)
    ensures
        s@.matched == s.matched,
        s@.next_idx == s.next_idx,
        s@.paused == s.paused,
        s@.pending_snapshot == s.pending_snapshot,
        s@.pending_request_snapshot == s.pending_request_snapshot,
        s@.recent_active == s.recent_active,
        s@.commit_group_id == s.commit_group_id,
        s@.committed_index == s.committed_index,
        s@.state == s.state@,
        s@.ins == s.ins@,
{
}

/// A configuration's view records its voters, learners, waiting learners and
/// automatic leave.
pub proof fn configuration_view_fields(c: Configuration)
    ensures
        c@.voters == c.voters@,
        c@.learners == c.learners@,
        c@.learners_next == c.learners_next@,
        c@.auto_leave == c.auto_leave,
{
}

/// A configuration mirror's view records its voters, learners, waiting
/// learners and automatic leave.
pub proof fn serde_configuration_view_fields(s: SerdeConfiguration)
    ensures
        s@.voters == s.voters@,
        s@.learners == s.learners@,
        s@.learners_next == s.learners_next@,
        s@.auto_leave == s.auto_leave,
{
}

/// A joint configuration's view records its incoming and outgoing voters.
pub proof fn joint_config_view_fields(j: JointConfig)
    ensures
        j@.incoming == j.incoming@,
        j@.outgoing == j.outgoing@,
{
}

/// A joint configuration mirror's view records its incoming and outgoing
/// voters.
pub proof fn serde_joint_config_view_fields(s: SerdeJointConfig)
    ensures
        s@.incoming == s.incoming@,
        s@.outgoing == s.outgoing@,
{
}

/// A tracker mirror's view records its configuration, votes, window
/// capacity and group commit setting.
pub proof fn serde_progress_tracker_view_fields(s: SerdeProgressTracker)
    ensures
        s@.conf == s.conf@,
        s@.votes == s.votes@,
        s@.max_inflight == s.max_inflight,
        s@.group_commit == s.group_commit,
{
}

/// The view of a log's unstable part records its size estimate and offset.
pub proof fn unstable_view_fields(u: Unstable)
    ensures
        u@.entries_size == u.entries_size,
        u@.offset == u.offset,
{
}

/// A log's view records its indexes, limit and unstable part.
pub proof fn raft_log_view_fields<T>(l: RaftLog<T>)
    ensures
        l@.committed == l.committed,
        l@.persisted == l.persisted,
        l@.applied == l.applied,
        l@.max_apply_unpersisted_log_limit == l.max_apply_unpersisted_log_limit,
        l@.unstable == l.unstable@,
{
}

/// A log mirror's view records its indexes, limit and unstable offset.
pub proof fn serde_raft_log_view_fields(s: SerdeRaftLog)
    ensures
        s@.committed == s.committed,
        s@.persisted == s.persisted,
        s@.applied == s.applied,
        s@.max_apply_unpersisted_log_limit == s.max_apply_unpersisted_log_limit,
        s@.unstable_offset == s.unstable_offset,
{
}

/// A core state's view records each of its fields under its own name.
pub proof fn raft_core_view_fields<T>(c: RaftCore<T>)
    ensures
        c@.term == c.term,
        c@.vote == c.vote,
        c@.id == c.id,
        c@.leader_id == c.leader_id,
        c@.lead_transferee == c.lead_transferee,
        c@.pending_conf_index == c.pending_conf_index,
        c@.pending_request_snapshot == c.pending_request_snapshot,
        c@.election_elapsed == c.election_elapsed,
        c@.heartbeat_elapsed == c.heartbeat_elapsed,
        c@.check_quorum == c.check_quorum,
        c@.pre_vote == c.pre_vote,
        c@.skip_bcast_commit == c.skip_bcast_commit,
        c@.batch_append == c.batch_append,
        c@.heartbeat_timeout == c.heartbeat_timeout,
        c@.election_timeout == c.election_timeout,
        c@.randomized_election_timeout == c.randomized_election_timeout,
        c@.min_election_timeout == c.min_election_timeout,
        c@.max_election_timeout == c.max_election_timeout,
        c@.max_inflight == c.max_inflight,
        c@.max_msg_size == c.max_msg_size,
        c@.priority == c.priority,
        c@.max_committed_size_per_ready == c.max_committed_size_per_ready,
        c@.disable_proposal_forwarding == c.disable_proposal_forwarding,
        c@.promotable == c.promotable,
        c@.state == c.state,
        c@.uncommitted_state == c.uncommitted_state,
        c@.raft_log == c.raft_log@,
        c@.read_only == c.read_only@,
{
}

/// A core state mirror's view records each of its fields under its own
/// name.
pub proof fn serde_raft_core_view_fields(s: SerdeRaftCore)
    ensures
        s@.term == s.term,
        s@.vote == s.vote,
        s@.id == s.id,
        s@.leader_id == s.leader_id,
        s@.lead_transferee == s.lead_transferee,
        s@.pending_conf_index == s.pending_conf_index,
        s@.pending_request_snapshot == s.pending_request_snapshot,
        s@.election_elapsed == s.election_elapsed,
        s@.heartbeat_elapsed == s.heartbeat_elapsed,
        s@.check_quorum == s.check_quorum,
        s@.pre_vote == s.pre_vote,
        s@.skip_bcast_commit == s.skip_bcast_commit,
        s@.batch_append == s.batch_append,
        s@.heartbeat_timeout == s.heartbeat_timeout,
        s@.election_timeout == s.election_timeout,
        s@.randomized_election_timeout == s.randomized_election_timeout,
        s@.min_election_timeout == s.min_election_timeout,
        s@.max_election_timeout == s.max_election_timeout,
        s@.max_inflight == s.max_inflight,
        s@.max_msg_size == s.max_msg_size,
        s@.priority == s.priority,
        s@.max_committed_size_per_ready == s.max_committed_size_per_ready,
        s@.disable_proposal_forwarding == s.disable_proposal_forwarding,
        s@.promote == s.promote,
        s@.state == s.state@,
        s@.raft_log == s.raft_log@,
        s@.config == s.config@,
        s@.read_only == s.read_only@,
        s@.uncommitted_state == s.uncommitted_state@,
{
}

/// A node's view records its state machine, previous states, batch counter,
/// records and commit index.
pub proof fn raw_node_view_fields<T>(n: RawNode<T>)
    ensures
        n@.prev_ss == n.prev_ss,
        n@.max_number == n.max_number,
        n@.commit_since_index == n.commit_since_index,
        n@.raft == n.raft@,
        n@.prev_hs == n.prev_hs@,
        n@.records == n.records@,
{
}

/// A node mirror's view records its state machine, states, batch counter and
/// commit index.
pub proof fn serde_raw_node_view_fields(s: SerdeRawNode)
    ensures
        s@.max_number == s.max_number,
        s@.commit_since_index == s.commit_since_index,
        s@.raft == s.raft@,
        s@.soft_state == s.soft_state@,
        s@.hard_state == s.hard_state@,
        s@.prev_ss == s.prev_ss@,
        s@.prev_hs == s.prev_hs@,
{
}

} // verus!
