//! The wire messages that a Raft node exchanges and persists: entries,
//! snapshots, configuration states, hard states and messages, laid out as the
//! protobuf runtime lays them out, each with a mathematical view.

use crate::pb::{fresh_cached_size, fresh_unknown_fields, unknown_field_numbers};
use protobuf::{CachedSize, RepeatedField, SingularPtrField, UnknownFields};
use vstd::prelude::*;

verus! {

// ---------------------------------------------------------------------------
// Enumerations and their wire codes
// ---------------------------------------------------------------------------

/// The kind of a log entry.
#[derive(Clone, Copy, Debug, PartialEq, Eq, Structural)]
pub enum EntryType {
    EntryNormal,
    EntryConfChange,
    EntryConfChangeV2,
}

impl EntryType {
    /// The wire code of this kind.
    pub open spec fn code(self) -> i32 {
        match self {
            EntryType::EntryNormal => 0,
            EntryType::EntryConfChange => 1,
            EntryType::EntryConfChangeV2 => 2,
        }
    }

    /// The wire code of this kind.
    pub fn value(&self) -> (r: i32)
        ensures
            r == self.code(),
    {
        match self {
            EntryType::EntryNormal => 0,
            EntryType::EntryConfChange => 1,
            EntryType::EntryConfChangeV2 => 2,
        }
    }

    /// The kind whose wire code is `v`, if there is one.
    pub fn from_i32(v: i32) -> (r: Option<EntryType>)
        ensures
            r == entry_type_of_code(v),
    {
        if v == 0 {
            Some(EntryType::EntryNormal)
        } else if v == 1 {
            Some(EntryType::EntryConfChange)
        } else if v == 2 {
            Some(EntryType::EntryConfChangeV2)
        } else {
            None
        }
    }
}

/// The entry kind whose wire code is `v`, if there is one.
pub open spec fn entry_type_of_code(v: i32) -> Option<EntryType> {
    if v == 0 {
        Some(EntryType::EntryNormal)
    } else if v == 1 {
        Some(EntryType::EntryConfChange)
    } else if v == 2 {
        Some(EntryType::EntryConfChangeV2)
    } else {
        None
    }
}

/// The code that an entry kind read from the wire ends up with: its own code
/// when it names a kind, the code of `EntryNormal` otherwise.
pub open spec fn decoded_entry_type(v: i32) -> i32 {
    match entry_type_of_code(v) {
        Some(t) => t.code(),
        None => 0,
    }
}

/// The kind of a Raft message.
#[derive(Clone, Copy, Debug, PartialEq, Eq, Structural)]
pub enum MessageType {
    MsgHup,
    MsgBeat,
    MsgPropose,
    MsgAppend,
    MsgAppendResponse,
    MsgRequestVote,
    MsgRequestVoteResponse,
    MsgSnapshot,
    MsgHeartbeat,
    MsgHeartbeatResponse,
    MsgUnreachable,
    MsgSnapStatus,
    MsgCheckQuorum,
    MsgTransferLeader,
    MsgTimeoutNow,
    MsgReadIndex,
    MsgReadIndexResp,
    MsgRequestPreVote,
    MsgRequestPreVoteResponse,
}

impl MessageType {
    /// The wire code of this kind.
    pub open spec fn code(self) -> i32 {
        match self {
            MessageType::MsgHup => 0,
            MessageType::MsgBeat => 1,
            MessageType::MsgPropose => 2,
            MessageType::MsgAppend => 3,
            MessageType::MsgAppendResponse => 4,
            MessageType::MsgRequestVote => 5,
            MessageType::MsgRequestVoteResponse => 6,
            MessageType::MsgSnapshot => 7,
            MessageType::MsgHeartbeat => 8,
            MessageType::MsgHeartbeatResponse => 9,
            MessageType::MsgUnreachable => 10,
            MessageType::MsgSnapStatus => 11,
            MessageType::MsgCheckQuorum => 12,
            MessageType::MsgTransferLeader => 13,
            MessageType::MsgTimeoutNow => 14,
            MessageType::MsgReadIndex => 15,
            MessageType::MsgReadIndexResp => 16,
            MessageType::MsgRequestPreVote => 17,
            MessageType::MsgRequestPreVoteResponse => 18,
        }
    }

    /// The wire code of this kind.
    pub fn value(&self) -> (r: i32)
        ensures
            r == self.code(),
    {
        match self {
            MessageType::MsgHup => 0,
            MessageType::MsgBeat => 1,
            MessageType::MsgPropose => 2,
            MessageType::MsgAppend => 3,
            MessageType::MsgAppendResponse => 4,
            MessageType::MsgRequestVote => 5,
            MessageType::MsgRequestVoteResponse => 6,
            MessageType::MsgSnapshot => 7,
            MessageType::MsgHeartbeat => 8,
            MessageType::MsgHeartbeatResponse => 9,
            MessageType::MsgUnreachable => 10,
            MessageType::MsgSnapStatus => 11,
            MessageType::MsgCheckQuorum => 12,
            MessageType::MsgTransferLeader => 13,
            MessageType::MsgTimeoutNow => 14,
            MessageType::MsgReadIndex => 15,
            MessageType::MsgReadIndexResp => 16,
            MessageType::MsgRequestPreVote => 17,
            MessageType::MsgRequestPreVoteResponse => 18,
        }
    }

    /// The kind whose wire code is `v`, if there is one.
    pub fn from_i32(v: i32) -> (r: Option<MessageType>)
        ensures
            r == message_type_of_code(v),
    {
        match v {
            0 => Some(MessageType::MsgHup),
            1 => Some(MessageType::MsgBeat),
            2 => Some(MessageType::MsgPropose),
            3 => Some(MessageType::MsgAppend),
            4 => Some(MessageType::MsgAppendResponse),
            5 => Some(MessageType::MsgRequestVote),
            6 => Some(MessageType::MsgRequestVoteResponse),
            7 => Some(MessageType::MsgSnapshot),
            8 => Some(MessageType::MsgHeartbeat),
            9 => Some(MessageType::MsgHeartbeatResponse),
            10 => Some(MessageType::MsgUnreachable),
            11 => Some(MessageType::MsgSnapStatus),
            12 => Some(MessageType::MsgCheckQuorum),
            13 => Some(MessageType::MsgTransferLeader),
            14 => Some(MessageType::MsgTimeoutNow),
            15 => Some(MessageType::MsgReadIndex),
            16 => Some(MessageType::MsgReadIndexResp),
            17 => Some(MessageType::MsgRequestPreVote),
            18 => Some(MessageType::MsgRequestPreVoteResponse),
            _ => None,
        }
    }
}

/// The message kind whose wire code is `v`, if there is one.
pub open spec fn message_type_of_code(v: i32) -> Option<MessageType> {
    match v {
        0 => Some(MessageType::MsgHup),
        1 => Some(MessageType::MsgBeat),
        2 => Some(MessageType::MsgPropose),
        3 => Some(MessageType::MsgAppend),
        4 => Some(MessageType::MsgAppendResponse),
        5 => Some(MessageType::MsgRequestVote),
        6 => Some(MessageType::MsgRequestVoteResponse),
        7 => Some(MessageType::MsgSnapshot),
        8 => Some(MessageType::MsgHeartbeat),
        9 => Some(MessageType::MsgHeartbeatResponse),
        10 => Some(MessageType::MsgUnreachable),
        11 => Some(MessageType::MsgSnapStatus),
        12 => Some(MessageType::MsgCheckQuorum),
        13 => Some(MessageType::MsgTransferLeader),
        14 => Some(MessageType::MsgTimeoutNow),
        15 => Some(MessageType::MsgReadIndex),
        16 => Some(MessageType::MsgReadIndexResp),
        17 => Some(MessageType::MsgRequestPreVote),
        18 => Some(MessageType::MsgRequestPreVoteResponse),
        _ => None,
    }
}

/// The code that a message kind read from the wire ends up with: its own code
/// when it names a kind, the code of `MsgHup` otherwise.
pub open spec fn decoded_message_type(v: i32) -> i32 {
    match message_type_of_code(v) {
        Some(t) => t.code(),
        None => 0,
    }
}

// ---------------------------------------------------------------------------
// Mathematical views of the messages
// ---------------------------------------------------------------------------

/// What a log entry holds.
pub struct EntryView {
    pub entry_type: i32,
    pub term: u64,
    pub index: u64,
    pub data: Seq<u8>,
    pub context: Seq<u8>,
    pub sync_log: bool,
}

impl EntryView {
    /// The kind code names a kind.
    pub open spec fn well_coded(self) -> bool {
        entry_type_of_code(self.entry_type) is Some
    }

    /// The entry as it reads back from the wire: a kind code that names no
    /// kind reads as `EntryNormal`.
    pub open spec fn decoded(self) -> EntryView {
        EntryView { entry_type: decoded_entry_type(self.entry_type), ..self }
    }
}

/// What a configuration state holds.
pub struct ConfStateView {
    pub voters: Seq<u64>,
    pub learners: Seq<u64>,
    pub voters_outgoing: Seq<u64>,
    pub learners_next: Seq<u64>,
    pub auto_leave: bool,
}

/// What the metadata of a snapshot holds.
pub struct SnapshotMetadataView {
    pub conf_state: Option<ConfStateView>,
    pub index: u64,
    pub term: u64,
}

/// What a snapshot holds.
pub struct SnapshotView {
    pub data: Seq<u8>,
    pub metadata: Option<SnapshotMetadataView>,
}

/// What a message holds.
pub struct MessageView {
    pub msg_type: i32,
    pub to: u64,
    pub from: u64,
    pub term: u64,
    pub log_term: u64,
    pub index: u64,
    pub entries: Seq<EntryView>,
    pub commit: u64,
    pub commit_term: u64,
    pub snapshot: Option<SnapshotView>,
    pub request_snapshot: u64,
    pub reject: bool,
    pub reject_hint: u64,
    pub context: Seq<u8>,
    pub deprecated_priority: u64,
    pub priority: i64,
}

impl MessageView {
    /// The kind codes of the message and of each of its entries name kinds.
    pub open spec fn well_coded(self) -> bool {
        &&& message_type_of_code(self.msg_type) is Some
        &&& forall|i: int| 0 <= i < self.entries.len() ==> (#[trigger] self.entries[i]).well_coded()
    }

    /// The message as it reads back from the wire: kind codes that name no
    /// kind read as the first kind, in the message and in each of its entries.
    pub open spec fn decoded(self) -> MessageView {
        MessageView {
            msg_type: decoded_message_type(self.msg_type),
            entries: self.entries.map_values(|e: EntryView| e.decoded()),
            ..self
        }
    }

    /// A snapshot that the message carries has its metadata.
    pub open spec fn snapshot_complete(self) -> bool {
        self.snapshot matches Some(s) ==> s.metadata is Some
    }
}

/// What a hard state holds.
pub struct HardStateView {
    pub term: u64,
    pub vote: u64,
    pub commit: u64,
}

// ---------------------------------------------------------------------------
// The messages
// ---------------------------------------------------------------------------

/// A log entry.
pub struct Entry {
    pub entry_type: EntryType,
    pub term: u64,
    pub index: u64,
    pub data: Vec<u8>,
    pub context: Vec<u8>,
    pub sync_log: bool,
    pub unknown_fields: UnknownFields,
    pub cached_size: CachedSize,
}

impl View for Entry {
    type V = EntryView;

    open spec fn view(&self) -> EntryView {
        EntryView {
            entry_type: self.entry_type.code(),
            term: self.term,
            index: self.index,
            data: self.data@,
            context: self.context@,
            sync_log: self.sync_log,
        }
    }
}

/// The membership of a Raft group, as recorded in snapshots.
pub struct ConfState {
    pub voters: Vec<u64>,
    pub learners: Vec<u64>,
    pub voters_outgoing: Vec<u64>,
    pub learners_next: Vec<u64>,
    pub auto_leave: bool,
    pub unknown_fields: UnknownFields,
    pub cached_size: CachedSize,
}

impl View for ConfState {
    type V = ConfStateView;

    open spec fn view(&self) -> ConfStateView {
        ConfStateView {
            voters: self.voters@,
            learners: self.learners@,
            voters_outgoing: self.voters_outgoing@,
            learners_next: self.learners_next@,
            auto_leave: self.auto_leave,
        }
    }
}

impl ConfState {
    /// A configuration state with every list empty and `auto_leave` unset.
    pub fn new() -> (r: ConfState)
        ensures
            r@ == (ConfStateView {
                voters: Seq::empty(),
                learners: Seq::empty(),
                voters_outgoing: Seq::empty(),
                learners_next: Seq::empty(),
                auto_leave: false,
            }),
            unknown_field_numbers(r.unknown_fields).is_empty(),
    {
        ConfState {
            voters: Vec::new(),
            learners: Vec::new(),
            voters_outgoing: Vec::new(),
            learners_next: Vec::new(),
            auto_leave: false,
            unknown_fields: fresh_unknown_fields(),
            cached_size: fresh_cached_size(),
        }
    }
}

/// The metadata of a snapshot.
pub struct SnapshotMetadata {
    pub conf_state: SingularPtrField<ConfState>,
    pub index: u64,
    pub term: u64,
    pub unknown_fields: UnknownFields,
    pub cached_size: CachedSize,
}

impl View for SnapshotMetadata {
    type V = SnapshotMetadataView;

    open spec fn view(&self) -> SnapshotMetadataView {
        SnapshotMetadataView {
            conf_state: conf_state_slot(self.conf_state),
            index: self.index,
            term: self.term,
        }
    }
}

/// A snapshot of the replicated state machine.
pub struct Snapshot {
    pub data: Vec<u8>,
    pub metadata: SingularPtrField<SnapshotMetadata>,
    pub unknown_fields: UnknownFields,
    pub cached_size: CachedSize,
}

impl View for Snapshot {
    type V = SnapshotView;

    open spec fn view(&self) -> SnapshotView {
        SnapshotView { data: self.data@, metadata: metadata_slot(self.metadata) }
    }
}

/// A message between the members of a Raft group.
pub struct Message {
    pub msg_type: MessageType,
    pub to: u64,
    pub from: u64,
    pub term: u64,
    pub log_term: u64,
    pub index: u64,
    pub entries: RepeatedField<Entry>,
    pub commit: u64,
    pub commit_term: u64,
    pub snapshot: SingularPtrField<Snapshot>,
    pub request_snapshot: u64,
    pub reject: bool,
    pub reject_hint: u64,
    pub context: Vec<u8>,
    pub deprecated_priority: u64,
    pub priority: i64,
    pub unknown_fields: UnknownFields,
    pub cached_size: CachedSize,
}

impl View for Message {
    type V = MessageView;

    open spec fn view(&self) -> MessageView {
        MessageView {
            msg_type: self.msg_type.code(),
            to: self.to,
            from: self.from,
            term: self.term,
            log_term: self.log_term,
            index: self.index,
            entries: entry_list(self.entries),
            commit: self.commit,
            commit_term: self.commit_term,
            snapshot: snapshot_slot(self.snapshot),
            request_snapshot: self.request_snapshot,
            reject: self.reject,
            reject_hint: self.reject_hint,
            context: self.context@,
            deprecated_priority: self.deprecated_priority,
            priority: self.priority,
        }
    }
}

/// The state that a Raft node must persist before it answers.
pub struct HardState {
    pub term: u64,
    pub vote: u64,
    pub commit: u64,
    pub unknown_fields: UnknownFields,
    pub cached_size: CachedSize,
}

impl View for HardState {
    type V = HardStateView;

    open spec fn view(&self) -> HardStateView {
        HardStateView { term: self.term, vote: self.vote, commit: self.commit }
    }
}

impl HardState {
    /// A hard state with the given term, vote and commit index.
    pub fn new(term: u64, vote: u64, commit: u64) -> (r: HardState)
        ensures
            r@ == (HardStateView { term, vote, commit }),
            unknown_field_numbers(r.unknown_fields).is_empty(),
    {
        HardState {
            term,
            vote,
            commit,
            unknown_fields: fresh_unknown_fields(),
            cached_size: fresh_cached_size(),
        }
    }
}

// ---------------------------------------------------------------------------
// What the protobuf fields of the messages hold
// ---------------------------------------------------------------------------

/// The entries that a repeated field of entries holds, in order.
pub uninterp spec fn entry_list(f: RepeatedField<Entry>) -> Seq<EntryView>;

/// The snapshot that an optional snapshot field holds, if it holds one.
pub uninterp spec fn snapshot_slot(f: SingularPtrField<Snapshot>) -> Option<SnapshotView>;

/// The metadata that an optional metadata field holds, if it holds one.
pub uninterp spec fn metadata_slot(f: SingularPtrField<SnapshotMetadata>) -> Option<
    SnapshotMetadataView,
>;

/// The configuration state that an optional field holds, if it holds one.
pub uninterp spec fn conf_state_slot(f: SingularPtrField<ConfState>) -> Option<ConfStateView>;

/// Calls `RepeatedField::from_vec`, which keeps the vector's elements in their
/// order.
#[verifier::external_body]
pub(crate) fn entries_from_vec(v: Vec<Entry>) -> (r: RepeatedField<Entry>)
    ensures
        entry_list(r) == v@.map_values(|e: Entry| e@),
{
    RepeatedField::from_vec(v)
}

/// Calls `RepeatedField::as_slice`, which shows the elements held, in order.
#[verifier::external_body]
pub(crate) fn entries_as_slice(f: &RepeatedField<Entry>) -> (r: &[Entry])
    ensures
        r@.map_values(|e: Entry| e@) == entry_list(*f),
{
    f.as_slice()
}

/// Calls `SingularPtrField::some`, a field that holds `s`.
#[verifier::external_body]
pub(crate) fn snapshot_some(s: Snapshot) -> (r: SingularPtrField<Snapshot>)
    ensures
        snapshot_slot(r) == Some(s@),
{
    SingularPtrField::some(s)
}

/// Calls `SingularPtrField::none`, a field that holds nothing.
#[verifier::external_body]
pub(crate) fn snapshot_none() -> (r: SingularPtrField<Snapshot>)
    ensures
        snapshot_slot(r) is None,
{
    SingularPtrField::none()
}

/// Calls `SingularPtrField::as_ref`, which shows what the field holds.
#[verifier::external_body]
pub(crate) fn snapshot_as_ref(f: &SingularPtrField<Snapshot>) -> (r: Option<&Snapshot>)
    ensures
        match r {
            Some(s) => snapshot_slot(*f) == Some(s@),
            None => snapshot_slot(*f) is None,
        },
{
    f.as_ref()
}

/// Calls `SingularPtrField::some`, a field that holds `m`.
#[verifier::external_body]
pub(crate) fn metadata_some(m: SnapshotMetadata) -> (r: SingularPtrField<SnapshotMetadata>)
    ensures
        metadata_slot(r) == Some(m@),
{
    SingularPtrField::some(m)
}

/// Calls `SingularPtrField::as_ref`, which shows what the field holds.
#[verifier::external_body]
pub(crate) fn metadata_as_ref(f: &SingularPtrField<SnapshotMetadata>) -> (r: Option<
    &SnapshotMetadata,
>)
    ensures
        match r {
            Some(m) => metadata_slot(*f) == Some(m@),
            None => metadata_slot(*f) is None,
        },
{
    f.as_ref()
}

/// Calls `SingularPtrField::some`, a field that holds `c`.
#[verifier::external_body]
pub(crate) fn conf_state_some(c: ConfState) -> (r: SingularPtrField<ConfState>)
    ensures
        conf_state_slot(r) == Some(c@),
{
    SingularPtrField::some(c)
}

/// Calls `SingularPtrField::none`, a field that holds nothing.
#[verifier::external_body]
pub(crate) fn conf_state_none() -> (r: SingularPtrField<ConfState>)
    ensures
        conf_state_slot(r) is None,
{
    SingularPtrField::none()
}

/// Calls `SingularPtrField::as_ref`, which shows what the field holds.
#[verifier::external_body]
pub(crate) fn conf_state_as_ref(f: &SingularPtrField<ConfState>) -> (r: Option<&ConfState>)
    ensures
        match r {
            Some(c) => conf_state_slot(*f) == Some(c@),
            None => conf_state_slot(*f) is None,
        },
{
    f.as_ref()
}

} // verus!
