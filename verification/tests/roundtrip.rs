use protobuf::{CachedSize, RepeatedField, SingularPtrField, UnknownFields};
use raft_serde::eraftpb::{
    ConfState, Entry, EntryType, HardState, Message, MessageType, Snapshot, SnapshotMetadata,
};
use raft_serde::raft_state::{
    Config, Raft, RaftCore, RaftLog, RawNode, ReadIndexStatus, ReadOnly, ReadOnlyOption,
    ReadState, ReadyRecord, SoftState, StateRole, UncommittedState, Unstable,
};
use raft_serde::serde::{
    SerdeConfState, SerdeConfig, SerdeConfiguration, SerdeEntry, SerdeHardState, SerdeInflights,
    SerdeJointConfig, SerdeMessage, SerdeProgress, SerdeProgressState, SerdeProgressTracker,
    SerdeRaft, SerdeRaftCore, SerdeRaftLog, SerdeRawNode, SerdeReadIndexStatus, SerdeReadOnly,
    SerdeReadOnlyOption, SerdeReadState, SerdeReadyRecord, SerdeSnapshot, SerdeSnapshotMetadata,
    SerdeSoftState, SerdeStateRole,
};
use raft_serde::confchange::{restore, ConfChangeError};
use raft_serde::tracker::{Progress, ProgressState, ProgressTracker};
use std::collections::{HashMap, HashSet, VecDeque};

fn entry(entry_type: EntryType, term: u64, index: u64, data: &[u8], context: &[u8]) -> Entry {
    Entry {
        entry_type,
        term,
        index,
        data: data.to_vec(),
        context: context.to_vec(),
        sync_log: false,
        unknown_fields: UnknownFields::default(),
        cached_size: CachedSize::default(),
    }
}

fn default_config(id: u64) -> Config {
    Config { id, ..Default::default() }
}

fn message(msg_type: MessageType, entries: Vec<Entry>, snapshot: Option<Snapshot>) -> Message {
    Message {
        msg_type,
        to: 2,
        from: 1,
        term: 3,
        log_term: 2,
        index: 7,
        entries: RepeatedField::from_vec(entries),
        commit: 5,
        commit_term: 2,
        snapshot: match snapshot {
            Some(s) => SingularPtrField::some(s),
            None => SingularPtrField::none(),
        },
        request_snapshot: 0,
        reject: false,
        reject_hint: 0,
        context: b"ctx".to_vec(),
        deprecated_priority: 0,
        priority: 4,
        unknown_fields: UnknownFields::default(),
        cached_size: CachedSize::default(),
    }
}

fn snapshot_with_conf(voters: Vec<u64>) -> Snapshot {
    let mut cs = ConfState::new();
    cs.voters = voters;
    Snapshot {
        data: b"state".to_vec(),
        metadata: SingularPtrField::some(SnapshotMetadata {
            conf_state: SingularPtrField::some(cs),
            index: 9,
            term: 4,
            unknown_fields: UnknownFields::default(),
            cached_size: CachedSize::default(),
        }),
        unknown_fields: UnknownFields::default(),
        cached_size: CachedSize::default(),
    }
}

/// A node in the state a fresh node with the given configuration starts in:
/// a follower at term zero, no peer, an empty log.
fn fresh_node(config: &Config) -> RawNode<()> {
    let core = RaftCore {
        term: 0,
        vote: 0,
        id: config.id,
        read_states: Vec::new(),
        raft_log: RaftLog {
            store: (),
            unstable: Unstable { snapshot: None, entries: Vec::new(), entries_size: 0, offset: 1 },
            committed: 0,
            persisted: 0,
            applied: 0,
            max_apply_unpersisted_log_limit: config.max_apply_unpersisted_log_limit,
        },
        max_inflight: config.max_inflight_msgs,
        max_msg_size: config.max_size_per_msg,
        pending_request_snapshot: 0,
        state: StateRole::Follower,
        promotable: false,
        check_quorum: config.check_quorum,
        pre_vote: config.pre_vote,
        read_only: ReadOnly::new(config.read_only_option),
        heartbeat_timeout: config.heartbeat_tick,
        election_timeout: config.election_tick,
        leader_id: 0,
        lead_transferee: None,
        election_elapsed: 0,
        pending_conf_index: 0,
        heartbeat_elapsed: 0,
        randomized_election_timeout: 13,
        min_election_timeout: config.min_election_tick(),
        max_election_timeout: config.max_election_tick(),
        skip_bcast_commit: config.skip_bcast_commit,
        batch_append: config.batch_append,
        priority: config.priority,
        uncommitted_state: UncommittedState {
            max_uncommitted_size: usize::MAX,
            uncommitted_size: 0,
            last_log_tail_index: 0,
        },
        max_committed_size_per_ready: config.max_committed_size_per_ready,
        disable_proposal_forwarding: config.disable_proposal_forwarding,
    };
    let raft = Raft {
        prs: ProgressTracker::with_capacity(0, 0, config.max_inflight_msgs),
        msgs: Vec::new(),
        r: core,
    };
    RawNode {
        raft,
        prev_ss: SoftState { leader_id: 0, raft_state: StateRole::Follower },
        prev_hs: HardState::new(0, 0, 0),
        max_number: 0,
        records: VecDeque::new(),
        commit_since_index: 0,
    }
}

#[test]
fn test_raw_node_roundtrip() {
    let config = Config { id: 1, ..Default::default() };
    let raw_node = fresh_node(&config);

    let serde_node = SerdeRawNode::from_node(&raw_node);
    let restored_node = serde_node.into_node(());

    assert_eq!(restored_node.raft.r.id, 1);
    assert_eq!(restored_node.raft.r.state, StateRole::Follower);
}

#[test]
fn entry_round_trip_keeps_fields() {
    let e = entry(EntryType::EntryConfChange, 3, 11, b"payload", b"c");
    let s = SerdeEntry::from(&e);
    assert_eq!(s.entry_type, 1);
    assert_eq!(s.term, 3);
    assert_eq!(s.index, 11);
    assert_eq!(s.data, b"payload".to_vec());
    assert_eq!(s.context, b"c".to_vec());
    let back = Entry::from(s);
    assert_eq!(back.entry_type, EntryType::EntryConfChange);
    assert_eq!(back.data, b"payload".to_vec());
    assert_eq!(back.index, 11);
}

#[test]
fn unknown_entry_type_reads_as_normal() {
    let s = SerdeEntry {
        term: 1,
        index: 2,
        entry_type: 42,
        data: vec![1, 2, 3],
        context: vec![],
        sync_log: true,
    };
    let e = Entry::from(s);
    assert_eq!(e.entry_type, EntryType::EntryNormal);
    assert!(e.sync_log);
    assert_eq!(SerdeEntry::from(e).entry_type, 0);
    assert_eq!(EntryType::from_i32(2), Some(EntryType::EntryConfChangeV2));
    assert_eq!(EntryType::from_i32(-1), None);
}

#[test]
fn message_type_codes() {
    assert_eq!(MessageType::MsgHup.value(), 0);
    assert_eq!(MessageType::MsgAppend.value(), 3);
    assert_eq!(MessageType::MsgRequestPreVoteResponse.value(), 18);
    assert_eq!(MessageType::from_i32(16), Some(MessageType::MsgReadIndexResp));
    assert_eq!(MessageType::from_i32(19), None);
}

#[test]
fn message_round_trip_with_entries_and_snapshot() {
    let m = message(
        MessageType::MsgAppend,
        vec![entry(EntryType::EntryNormal, 2, 6, b"a", b""), entry(EntryType::EntryNormal, 3, 7, b"bc", b"x")],
        Some(snapshot_with_conf(vec![1, 2, 3])),
    );
    let s = SerdeMessage::from_message(&m);
    assert_eq!(s.msg_type, 3);
    assert_eq!(s.entries.len(), 2);
    assert_eq!(s.entries[1].data, b"bc".to_vec());
    let snap = s.snapshot.clone().unwrap();
    assert_eq!(snap.data, b"state".to_vec());
    assert_eq!(snap.metadata.index, 9);
    assert_eq!(snap.metadata.conf_state.clone().unwrap().voters, vec![1, 2, 3]);
    assert_eq!(s.context, b"ctx".to_vec());
    assert_eq!(s.priority, 4);

    let back = Message::from(s);
    assert_eq!(back.msg_type, MessageType::MsgAppend);
    assert_eq!(back.entries.len(), 2);
    assert_eq!(back.entries[0].index, 6);
    assert!(back.snapshot.is_some());
    let meta = back.snapshot.as_ref().unwrap().metadata.as_ref().unwrap();
    assert_eq!(meta.term, 4);
    assert_eq!(meta.conf_state.as_ref().unwrap().voters, vec![1, 2, 3]);
}

#[test]
fn rebuilt_message_drops_unknown_fields() {
    let mut m = message(MessageType::MsgHeartbeat, vec![entry(EntryType::EntryNormal, 1, 1, b"", b"")], None);
    m.unknown_fields.add_varint(77, 5);
    assert!(m.unknown_fields != UnknownFields::new());
    let back = Message::from(SerdeMessage::from_message(&m));
    assert_eq!(back.unknown_fields, UnknownFields::new());
    assert_eq!(back.entries[0].unknown_fields, UnknownFields::new());
    assert_eq!(back.msg_type, MessageType::MsgHeartbeat);
}

#[test]
fn unknown_message_type_reads_as_hup() {
    let mut s = SerdeMessage::from_message(&message(MessageType::MsgBeat, vec![], None));
    assert_eq!(s.msg_type, 1);
    assert!(s.snapshot.is_none());
    s.msg_type = 99;
    s.entries.push(SerdeEntry {
        term: 1,
        index: 1,
        entry_type: 7,
        data: vec![],
        context: vec![],
        sync_log: false,
    });
    let m = Message::from(s);
    assert_eq!(m.msg_type, MessageType::MsgHup);
    assert_eq!(m.entries[0].entry_type, EntryType::EntryNormal);
    assert!(!m.snapshot.is_some());
}

#[test]
fn hard_state_and_conf_state_round_trip() {
    let hs = HardState::new(5, 2, 9);
    let s = SerdeHardState::from(hs);
    assert_eq!((s.term, s.vote, s.commit), (5, 2, 9));
    let back = HardState::from(s);
    assert_eq!((back.term, back.vote, back.commit), (5, 2, 9));

    let mut cs = ConfState::new();
    cs.voters = vec![1, 2];
    cs.learners = vec![3];
    cs.auto_leave = true;
    let scs = SerdeConfState::from(&cs);
    assert_eq!(scs.voters, vec![1, 2]);
    assert_eq!(scs.learners, vec![3]);
    assert!(scs.auto_leave);
    let back = ConfState::from(scs);
    assert_eq!(back.voters, vec![1, 2]);
    assert!(back.voters_outgoing.is_empty());
}

#[test]
fn snapshot_metadata_without_conf_state() {
    let smeta = SerdeSnapshotMetadata { conf_state: None, index: 3, term: 1 };
    let ssnap = SerdeSnapshot { data: vec![9], metadata: smeta };
    let snap = Snapshot::from(ssnap);
    assert!(snap.metadata.as_ref().unwrap().conf_state.as_ref().is_none());
    let again = SerdeSnapshot::from_snapshot(&snap);
    assert!(again.metadata.conf_state.is_none());
    assert_eq!(again.metadata.index, 3);
    assert_eq!(again.data, vec![9]);
}

#[test]
fn config_round_trip_and_election_ticks() {
    let mut c = default_config(4);
    c.read_only_option = ReadOnlyOption::LeaseBased;
    let s = SerdeConfig::from(c);
    assert_eq!(s.id, 4);
    assert!(matches!(s.read_only_option, SerdeReadOnlyOption::LeaseBased));
    let back = Config::from(s);
    assert_eq!(back.read_only_option, ReadOnlyOption::LeaseBased);
    assert_eq!(back.election_tick, 20);
    assert_eq!(back.heartbeat_tick, 2);
    assert_eq!(back.max_inflight_msgs, 256);
    assert_eq!(back.max_uncommitted_size, u64::MAX);
    assert_eq!(back.min_election_tick(), 20);
    assert_eq!(back.max_election_tick(), 40);
    let set = Config { min_election_tick: 12, max_election_tick: 30, ..back };
    assert_eq!(set.min_election_tick(), 12);
    assert_eq!(set.max_election_tick(), 30);
}

#[test]
fn roles_options_soft_states_and_records() {
    for role in [StateRole::Follower, StateRole::Candidate, StateRole::Leader, StateRole::PreCandidate] {
        assert_eq!(StateRole::from(SerdeStateRole::from(role)), role);
    }
    let ss = SoftState { leader_id: 3, raft_state: StateRole::Leader };
    let sss = SerdeSoftState::from_soft_state(ss);
    assert_eq!(sss.leader_id, 3);
    assert_eq!(sss.into_soft_state(), ss);

    let rec = ReadyRecord { number: 4, last_entry: Some((2, 8)), snapshot: None };
    let srec = SerdeReadyRecord::from_ready_record(rec);
    assert_eq!(srec.last_entry, Some((2, 8)));
    assert_eq!(srec.into_ready_record(), rec);

    assert_eq!(ProgressState::from(SerdeProgressState::from(ProgressState::Replicate)), ProgressState::Replicate);
}

fn status(index: u64, acks: &[u64]) -> SerdeReadIndexStatus {
    SerdeReadIndexStatus {
        req: SerdeMessage::from_message(&message(MessageType::MsgReadIndex, vec![], None)),
        index,
        acks: acks.to_vec(),
    }
}

#[test]
fn read_only_collects_contexts_last_status_wins() {
    let sro = SerdeReadOnly {
        option: SerdeReadOnlyOption::Safe,
        pending_read_index: vec![
            (b"a".to_vec(), status(1, &[1])),
            (b"b".to_vec(), status(2, &[2, 2])),
            (b"a".to_vec(), status(3, &[3, 1])),
        ],
        read_index_queue: vec![b"a".to_vec(), b"b".to_vec()],
    };
    let ro = ReadOnly::from(sro);
    assert_eq!(ro.option, ReadOnlyOption::Safe);
    assert_eq!(ro.pending_read_index.len(), 2);
    assert_eq!(ro.pending_read_index[0].0, b"a".to_vec());
    assert_eq!(ro.pending_read_index[0].1.index, 3);
    assert_eq!(ro.pending_read_index[0].1.acks, HashSet::from([1, 3]));
    assert_eq!(ro.pending_read_index[1].0, b"b".to_vec());
    assert_eq!(ro.pending_read_index[1].1.acks, HashSet::from([2]));
    assert_eq!(ro.read_index_queue, VecDeque::from(vec![b"a".to_vec(), b"b".to_vec()]));
    assert_eq!(ro.pending_read_index[1].1.req.msg_type, MessageType::MsgReadIndex);

    let back = SerdeReadOnly::from_read_only(&ro);
    assert_eq!(back.pending_read_index.len(), 2);
    assert_eq!(back.pending_read_index[0].1.index, 3);
    let mut acks = back.pending_read_index[0].1.acks.clone();
    acks.sort();
    assert_eq!(acks, vec![1, 3]);
    assert_eq!(back.read_index_queue, vec![b"a".to_vec(), b"b".to_vec()]);
}

#[test]
fn read_index_status_lists_each_ack_once() {
    let st = ReadIndexStatus {
        req: message(MessageType::MsgReadIndex, vec![], None),
        index: 5,
        acks: HashSet::from([4, 6]),
    };
    let s = SerdeReadIndexStatus::from_read_index_status(&st);
    let mut acks = s.acks.clone();
    acks.sort();
    assert_eq!(acks, vec![4, 6]);
    assert_eq!(s.req.msg_type, 15);
    let back = ReadIndexStatus::from(s);
    assert_eq!(back.acks, HashSet::from([4, 6]));
    assert_eq!(back.index, 5);
}

#[test]
fn read_state_round_trip() {
    let rs = ReadState { index: 8, request_ctx: b"r".to_vec() };
    let s = SerdeReadState::from(&rs);
    assert_eq!(s.index, 8);
    let back = ReadState::from(s);
    assert_eq!(back.request_ctx, b"r".to_vec());
}

fn serde_progress(next_idx: u64, matched: u64) -> SerdeProgress {
    SerdeProgress {
        matched,
        next_idx,
        state: SerdeProgressState::Replicate,
        paused: false,
        pending_snapshot: 0,
        pending_request_snapshot: 0,
        recent_active: false,
        ins: SerdeInflights { start: 0, count: 1, cap: 8, buffer: vec![matched], incoming_cap: None },
        commit_group_id: 0,
        committed_index: matched,
    }
}

fn serde_tracker(voters: Vec<u64>, learners: Vec<u64>) -> SerdeProgressTracker {
    let mut progress = HashMap::new();
    progress.insert(1, serde_progress(10, 9));
    progress.insert(2, serde_progress(7, 6));
    let mut votes = HashMap::new();
    votes.insert(1, true);
    votes.insert(3, false);
    SerdeProgressTracker {
        progress,
        conf: SerdeConfiguration {
            voters: SerdeJointConfig { incoming: voters, outgoing: vec![] },
            learners,
            learners_next: vec![],
            auto_leave: false,
        },
        votes,
        max_inflight: 8,
        group_commit: true,
    }
}

#[test]
fn tracker_rebuilt_with_mirrored_and_joined_records() {
    let t = serde_tracker(vec![1, 2, 3], vec![4]).into_tracker();
    assert_eq!(t.max_inflight(), 8);
    assert!(t.group_commit());
    let conf = t.conf();
    assert_eq!(conf.voters.incoming.voters, HashSet::from([1, 2, 3]));
    assert!(conf.voters.outgoing.voters.is_empty());
    assert_eq!(conf.learners, HashSet::from([4]));
    let p = t.progress();
    assert_eq!(p.len(), 4);
    assert_eq!(p[&1].matched, 9);
    assert_eq!(p[&1].state, ProgressState::Replicate);
    assert_eq!(p[&2].next_idx, 7);
    // members without a mirrored record probe from the greatest mirrored next index
    assert_eq!(p[&3].next_idx, 10);
    assert_eq!(p[&3].matched, 0);
    assert_eq!(p[&3].state, ProgressState::Probe);
    assert!(p[&3].recent_active);
    assert_eq!(p[&4].ins.cap, 8);
    assert_eq!(t.votes().len(), 2);
    assert_eq!(t.votes()[&3], false);
}

#[test]
fn tracker_voter_listed_as_learner_becomes_learner() {
    let (t, status) = serde_tracker(vec![1, 2], vec![2]).into_tracker_checked();
    assert_eq!(status, Ok(()));
    assert_eq!(t.conf().voters.incoming.voters, HashSet::from([1]));
    assert_eq!(t.conf().learners, HashSet::from([2]));
    assert_eq!(t.progress().len(), 2);
    assert_eq!(t.progress()[&2].matched, 6);
}

#[test]
fn tracker_without_voters_has_no_member() {
    let (t, status) = serde_tracker(vec![], vec![5]).into_tracker_checked();
    assert_eq!(status, Err(ConfChangeError::NoIncomingVoters));
    assert!(t.progress().is_empty());
    assert!(t.conf().voters.incoming.voters.is_empty());
    assert!(t.conf().learners.is_empty());
    assert_eq!(t.votes().len(), 2);
    assert!(t.group_commit());
}

#[test]
fn tracker_mirror_and_back() {
    let t = serde_tracker(vec![1, 2], vec![]).into_tracker();
    let s = SerdeProgressTracker::from(&t);
    assert_eq!(s.progress.len(), 2);
    assert_eq!(s.progress[&2].matched, 6);
    let mut incoming = s.conf.voters.incoming.clone();
    incoming.sort();
    assert_eq!(incoming, vec![1, 2]);
    assert_eq!(s.votes.len(), 2);
    let again = s.into_tracker();
    assert_eq!(again.progress().len(), 2);
    assert_eq!(again.progress()[&1].next_idx, 10);
}

#[test]
fn restore_turns_voter_listed_as_learner_into_learner() {
    let mut t = ProgressTracker::with_capacity(2, 1, 16);
    let mut cs = ConfState::new();
    cs.voters = vec![1, 2];
    cs.learners = vec![2];
    assert_eq!(restore(&mut t, 5, &cs), Ok(()));
    assert_eq!(t.conf().voters.incoming.voters, HashSet::from([1]));
    assert_eq!(t.conf().learners, HashSet::from([2]));
    assert_eq!(t.progress().len(), 2);
    assert_eq!(t.progress()[&2].next_idx, 5);
    assert!(t.progress()[&2].recent_active);
}

#[test]
fn restore_stops_at_step_that_removes_last_voter() {
    let mut t = ProgressTracker::with_capacity(1, 1, 16);
    let mut cs = ConfState::new();
    cs.voters = vec![1];
    cs.learners = vec![1];
    assert_eq!(restore(&mut t, 5, &cs), Err(ConfChangeError::NoIncomingVoters));
    // the voter added before the failing step stays
    assert_eq!(t.conf().voters.incoming.voters, HashSet::from([1]));
    assert!(t.conf().learners.is_empty());
    assert_eq!(t.progress().len(), 1);

    let mut joint = ConfState::new();
    joint.voters_outgoing = vec![1];
    let mut t2 = ProgressTracker::with_capacity(1, 0, 16);
    assert_eq!(restore(&mut t2, 5, &joint), Err(ConfChangeError::NoIncomingVoters));
    // the outgoing voter was added; entering the joint configuration failed
    assert_eq!(t2.conf().voters.incoming.voters, HashSet::from([1]));
    assert!(t2.conf().voters.outgoing.voters.is_empty());
    assert_eq!(t2.progress().len(), 1);
}

#[test]
fn restore_skips_id_zero() {
    let mut t = ProgressTracker::with_capacity(2, 0, 4);
    let mut cs = ConfState::new();
    cs.voters = vec![1, 0];
    assert_eq!(restore(&mut t, 3, &cs), Ok(()));
    assert_eq!(t.conf().voters.incoming.voters, HashSet::from([1]));
    assert_eq!(t.progress().len(), 1);

    // a first step that is skipped still leaves no incoming voter
    let mut t2 = ProgressTracker::with_capacity(2, 0, 4);
    cs.voters = vec![0, 1];
    assert_eq!(restore(&mut t2, 3, &cs), Err(ConfChangeError::NoIncomingVoters));
    assert!(t2.progress().is_empty());
}

#[test]
fn restore_checks_joint_configurations() {
    let mut cs = ConfState::new();
    cs.voters = vec![1, 2, 3];
    cs.voters_outgoing = vec![1, 2, 4];
    cs.learners_next = vec![4];
    cs.auto_leave = true;
    let mut t = ProgressTracker::with_capacity(3, 1, 4);
    assert_eq!(restore(&mut t, 2, &cs), Ok(()));
    assert_eq!(t.progress().len(), 4);
    assert_eq!(t.conf().voters.incoming.voters, HashSet::from([1, 2, 3]));
    assert_eq!(t.conf().voters.outgoing.voters, HashSet::from([1, 2, 4]));
    assert_eq!(t.conf().learners_next, HashSet::from([4]));
    assert!(t.conf().auto_leave);

    // outside a joint configuration, a waiting learner becomes a learner and
    // the automatic leave is dropped
    let mut simple = ConfState::new();
    simple.voters = vec![1];
    simple.learners_next = vec![2];
    simple.auto_leave = true;
    let mut t2 = ProgressTracker::with_capacity(1, 1, 4);
    assert_eq!(restore(&mut t2, 2, &simple), Ok(()));
    assert_eq!(t2.conf().learners, HashSet::from([2]));
    assert!(t2.conf().learners_next.is_empty());
    assert!(!t2.conf().auto_leave);

    let mut no_voters = ConfState::new();
    no_voters.learners = vec![5];
    let mut t3 = ProgressTracker::with_capacity(0, 1, 4);
    assert_eq!(restore(&mut t3, 2, &no_voters), Err(ConfChangeError::NoIncomingVoters));
    assert!(t3.progress().is_empty());

    let mut t4 = ProgressTracker::with_capacity(0, 0, 4);
    assert_eq!(restore(&mut t4, 2, &ConfState::new()), Ok(()));
    assert!(t4.progress().is_empty());
}

#[test]
fn record_vote_keeps_first_vote() {
    let mut t = ProgressTracker::with_capacity(1, 0, 4);
    t.record_vote(1, true);
    t.record_vote(1, false);
    assert_eq!(t.votes()[&1], true);
    let mut p = Progress::new(3, 4);
    p.matched = 2;
    assert!(!t.update_progress(1, p));
}

#[test]
fn raft_log_size_is_estimated_anew() {
    let s = SerdeRaftLog {
        committed: 4,
        persisted: 5,
        applied: 3,
        unstable_entries: vec![
            SerdeEntry { term: 1, index: 6, entry_type: 0, data: vec![0; 10], context: vec![1, 2], sync_log: false },
            SerdeEntry { term: 1, index: 7, entry_type: 9, data: vec![], context: vec![], sync_log: false },
        ],
        unstable_snapshot: None,
        unstable_offset: 6,
        max_apply_unpersisted_log_limit: 2,
    };
    let log = s.into_raft_log(());
    assert_eq!(log.unstable.entries_size, (10 + 2 + 12) + 12);
    assert_eq!(log.unstable.entries.len(), 2);
    assert_eq!(log.unstable.entries[1].entry_type, EntryType::EntryNormal);
    assert_eq!(log.unstable.offset, 6);
    assert_eq!((log.committed, log.persisted, log.applied), (4, 5, 3));
    assert_eq!(raft_serde::raft_state::entry_approximate_size(&log.unstable.entries[0]), 24);
    let back = SerdeRaftLog::from_raft_log(&log);
    assert_eq!(back.unstable_entries.len(), 2);
    assert_eq!(back.unstable_entries[1].entry_type, 0);
}

#[test]
fn core_takes_settings_from_its_configuration() {
    let config = default_config(7);
    let mut node = fresh_node(&config);
    node.raft.r.term = 3;
    node.raft.r.vote = 2;
    node.raft.r.raft_log.committed = 1;
    node.raft.r.read_states.push(ReadState { index: 1, request_ctx: b"q".to_vec() });
    node.raft.r.promotable = true;
    let core = SerdeRaftCore::from_raft_core(&node.raft);
    assert_eq!(core.config.election_tick, 20);
    assert_eq!(core.config.min_election_tick, 20);
    assert_eq!(core.config.max_election_tick, 40);
    assert_eq!(core.config.applied, 0);
    assert_eq!(core.config.max_uncommitted_size, usize::MAX as u64);
    assert!(core.promote);
    assert_eq!(core.read_states.len(), 1);

    let mut core = core;
    core.config.min_election_tick = 0;
    core.config.max_election_tick = 0;
    core.config.election_tick = 6;
    core.config.max_inflight_msgs = 3;
    core.max_inflight = 99;
    let restored = core.into_core(());
    assert_eq!(restored.election_timeout, 6);
    assert_eq!(restored.min_election_timeout, 6);
    assert_eq!(restored.max_election_timeout, 12);
    assert_eq!(restored.max_inflight, 3);
    assert_eq!(restored.term, 3);
    assert_eq!(restored.read_states[0].request_ctx, b"q".to_vec());
}

#[test]
fn node_round_trip_keeps_state() {
    let config = default_config(2);
    let mut node = fresh_node(&config);
    node.raft.r.term = 4;
    node.raft.r.leader_id = 3;
    node.raft.r.state = StateRole::Candidate;
    node.raft.r.raft_log.committed = 2;
    node.raft.msgs.push(message(MessageType::MsgRequestVote, vec![], None));
    node.records.push_back(ReadyRecord { number: 1, last_entry: Some((4, 2)), snapshot: None });
    node.max_number = 1;
    let e = entry(EntryType::EntryNormal, 4, 2, b"x", b"");
    node.raft.r.raft_log.unstable.entries_size = raft_serde::raft_state::entry_approximate_size(&e);
    node.raft.r.raft_log.unstable.entries.push(e);

    let s = SerdeRawNode::from_node(&node);
    assert_eq!(s.soft_state.leader_id, 3);
    assert!(matches!(s.soft_state.raft_state, SerdeStateRole::Candidate));
    assert_eq!((s.hard_state.term, s.hard_state.vote, s.hard_state.commit), (4, 0, 2));
    assert_eq!(s.records.len(), 1);
    assert_eq!(s.raft.msgs.len(), 1);
    assert_eq!(s.raft.msgs[0].msg_type, 5);
    assert!(s.raft.prs().progress.is_empty());

    let back = s.into_node(());
    assert_eq!(back.raft.r.term, 4);
    assert_eq!(back.raft.r.state, StateRole::Candidate);
    assert_eq!(back.raft.r.raft_log.unstable.entries_size, 13);
    assert_eq!(back.raft.msgs[0].msg_type, MessageType::MsgRequestVote);
    assert_eq!(back.records.len(), 1);
    assert_eq!(back.records[0].last_entry, Some((4, 2)));
    assert_eq!(back.max_number, 1);
    assert_eq!(back.raft.soft_state(), SoftState { leader_id: 3, raft_state: StateRole::Candidate });
    assert_eq!(back.raft.msgs[0].unknown_fields, UnknownFields::new());
    let _ = SerdeRaft::from_raft(&back.raft);
}

#[test]
fn node_bookkeeping_and_core_settings_read_back() {
    let config = default_config(5);
    let mut node = fresh_node(&config);
    node.prev_ss = SoftState { leader_id: 9, raft_state: StateRole::Leader };
    node.prev_hs = HardState::new(7, 5, 3);
    node.commit_since_index = 3;
    node.max_number = 4;
    node.records.push_back(ReadyRecord { number: 3, last_entry: None, snapshot: Some((2, 6)) });
    node.records.push_back(ReadyRecord { number: 4, last_entry: Some((7, 3)), snapshot: None });
    node.raft.r.vote = 5;
    node.raft.r.raft_log.applied = 1;
    node.raft.r.election_elapsed = 2;
    node.raft.r.randomized_election_timeout = 13;
    let s = SerdeRawNode::from_node(&node);
    let back = s.into_node(());
    assert_eq!(back.prev_ss, SoftState { leader_id: 9, raft_state: StateRole::Leader });
    assert_eq!((back.prev_hs.term, back.prev_hs.vote, back.prev_hs.commit), (7, 5, 3));
    assert_eq!(back.commit_since_index, 3);
    assert_eq!(back.max_number, 4);
    assert_eq!(back.records.len(), 2);
    assert_eq!(back.records[0].snapshot, Some((2, 6)));
    assert_eq!(back.records[1].number, 4);
    assert_eq!(back.raft.r.id, 5);
    assert_eq!(back.raft.r.vote, 5);
    assert_eq!(back.raft.r.raft_log.applied, 1);
    assert_eq!(back.raft.r.election_elapsed, 2);
    assert_eq!(back.raft.r.randomized_election_timeout, 13);
    assert_eq!(back.raft.r.min_election_timeout, node.raft.r.min_election_timeout);
    assert_eq!(back.raft.r.max_election_timeout, node.raft.r.max_election_timeout);
    assert_eq!(back.raft.hard_state().vote, 5);
}
