//! Serializable mirrors of the wire messages, and the conversions both ways.

use crate::eraftpb::{
    conf_state_as_ref, conf_state_none, conf_state_some, decoded_entry_type, entries_as_slice,
    entries_from_vec, metadata_as_ref, metadata_some, snapshot_as_ref, snapshot_none,
    snapshot_some, ConfState, ConfStateView, Entry, EntryType, EntryView, HardState, HardStateView,
    Message, MessageType, MessageView, Snapshot, SnapshotMetadata, SnapshotMetadataView,
    SnapshotView,
};
use crate::pb::{fresh_cached_size, fresh_unknown_fields, unknown_field_numbers};
use crate::seq_util::{copy_bytes, copy_ids};
use vstd::prelude::*;

verus! {

// ---------------------------------------------------------------------------
// Hard state
// ---------------------------------------------------------------------------

/// Serializable mirror of a hard state.
#[derive(Clone)]
pub struct SerdeHardState {
    pub term: u64,
    pub vote: u64,
    pub commit: u64,
}

impl View for SerdeHardState {
    type V = HardStateView;

    open spec fn view(&self) -> HardStateView {
        HardStateView { term: self.term, vote: self.vote, commit: self.commit }
    }
}

impl From<HardState> for SerdeHardState {
    fn from(hs: HardState) -> (r: SerdeHardState)
        ensures
            r@ == hs@,
    {
        SerdeHardState { term: hs.term, vote: hs.vote, commit: hs.commit }
    }
}

impl vstd::std_specs::convert::FromSpecImpl<HardState> for SerdeHardState {
    open spec fn obeys_from_spec() -> bool {
        false
    }

    open spec fn from_spec(v: HardState) -> SerdeHardState {
        choose|r: SerdeHardState| r@ == v@
    }
}

impl From<SerdeHardState> for HardState {
    fn from(shs: SerdeHardState) -> (r: HardState)
        ensures
            r@ == shs@,
    {
        HardState::new(shs.term, shs.vote, shs.commit)
    }
}

impl vstd::std_specs::convert::FromSpecImpl<SerdeHardState> for HardState {
    open spec fn obeys_from_spec() -> bool {
        false
    }

    open spec fn from_spec(v: SerdeHardState) -> HardState {
        choose|r: HardState| r@ == v@
    }
}

// ---------------------------------------------------------------------------
// Entry
// ---------------------------------------------------------------------------

/// Serializable mirror of a log entry; the kind is kept as its wire code.
#[derive(Clone)]
pub struct SerdeEntry {
    pub term: u64,
    pub index: u64,
    pub entry_type: i32,
    pub data: Vec<u8>,
    pub context: Vec<u8>,
    pub sync_log: bool,
}

impl View for SerdeEntry {
    type V = EntryView;

    open spec fn view(&self) -> EntryView {
        EntryView {
            entry_type: self.entry_type,
            term: self.term,
            index: self.index,
            data: self.data@,
            context: self.context@,
            sync_log: self.sync_log,
        }
    }
}

/// The entry kind that a wire code reads as: the kind it names, or
/// `EntryNormal` when it names none.
pub fn entry_type_or_normal(code: i32) -> (r: EntryType)
    ensures
        r.code() == decoded_entry_type(code),
{
    match EntryType::from_i32(code) {
        Some(t) => t,
        None => EntryType::EntryNormal,
    }
}

impl<'a> From<&'a Entry> for SerdeEntry {
    fn from(entry: &'a Entry) -> (r: SerdeEntry)
        ensures
            r@ == entry@,
    {
        SerdeEntry {
            term: entry.term,
            index: entry.index,
            entry_type: entry.entry_type.value(),
            data: copy_bytes(&entry.data),
            context: copy_bytes(&entry.context),
            sync_log: entry.sync_log,
        }
    }
}

impl<'a> vstd::std_specs::convert::FromSpecImpl<&'a Entry> for SerdeEntry {
    open spec fn obeys_from_spec() -> bool {
        false
    }

    open spec fn from_spec(v: &'a Entry) -> SerdeEntry {
        choose|r: SerdeEntry| r@ == v@
    }
}

impl From<Entry> for SerdeEntry {
    fn from(entry: Entry) -> (r: SerdeEntry)
        ensures
            r@ == entry@,
    {
        SerdeEntry {
            term: entry.term,
            index: entry.index,
            entry_type: entry.entry_type.value(),
            data: entry.data,
            context: entry.context,
            sync_log: entry.sync_log,
        }
    }
}

impl vstd::std_specs::convert::FromSpecImpl<Entry> for SerdeEntry {
    open spec fn obeys_from_spec() -> bool {
        false
    }

    open spec fn from_spec(v: Entry) -> SerdeEntry {
        choose|r: SerdeEntry| r@ == v@
    }
}

impl<'a> From<&'a SerdeEntry> for Entry {
    fn from(sentry: &'a SerdeEntry) -> (r: Entry)
        ensures
            r@ == sentry@.decoded(),
            unknown_field_numbers(r.unknown_fields).is_empty(),
    {
        Entry {
            term: sentry.term,
            index: sentry.index,
            entry_type: entry_type_or_normal(sentry.entry_type),
            data: copy_bytes(&sentry.data),
            context: copy_bytes(&sentry.context),
            sync_log: sentry.sync_log,
            unknown_fields: fresh_unknown_fields(),
            cached_size: fresh_cached_size(),
        }
    }
}

impl<'a> vstd::std_specs::convert::FromSpecImpl<&'a SerdeEntry> for Entry {
    open spec fn obeys_from_spec() -> bool {
        false
    }

    open spec fn from_spec(v: &'a SerdeEntry) -> Entry {
        choose|r: Entry| r@ == v@.decoded()
    }
}

impl From<SerdeEntry> for Entry {
    fn from(sentry: SerdeEntry) -> (r: Entry)
        ensures
            r@ == sentry@.decoded(),
            unknown_field_numbers(r.unknown_fields).is_empty(),
    {
        Entry {
            term: sentry.term,
            index: sentry.index,
            entry_type: entry_type_or_normal(sentry.entry_type),
            data: sentry.data,
            context: sentry.context,
            sync_log: sentry.sync_log,
            unknown_fields: fresh_unknown_fields(),
            cached_size: fresh_cached_size(),
        }
    }
}

impl vstd::std_specs::convert::FromSpecImpl<SerdeEntry> for Entry {
    open spec fn obeys_from_spec() -> bool {
        false
    }

    open spec fn from_spec(v: SerdeEntry) -> Entry {
        choose|r: Entry| r@ == v@.decoded()
    }
}

/// The mirrors of a list of entries, in order.
pub fn serde_entries_of(entries: &[Entry]) -> (r: Vec<SerdeEntry>)
    ensures
        r@.map_values(|e: SerdeEntry| e@) == entries@.map_values(|e: Entry| e@),
{
    let mut out: Vec<SerdeEntry> = Vec::new();
    for i in 0..entries.len()
        invariant
            out@.len() == i,
            forall|j: int| 0 <= j < i ==> #[trigger] out@[j]@ == entries@[j]@,
    {
        out.push(SerdeEntry::from(&entries[i]));
    }
    assert(out@.map_values(|e: SerdeEntry| e@) =~= entries@.map_values(|e: Entry| e@));
    out
}

/// The entries that a list of mirrors reads back as, in order.
pub fn entries_of_serde(sentries: &[SerdeEntry]) -> (r: Vec<Entry>)
    ensures
        r@.map_values(|e: Entry| e@) == sentries@.map_values(|e: SerdeEntry| e@.decoded()),
{
    let mut out: Vec<Entry> = Vec::new();
    for i in 0..sentries.len()
        invariant
            out@.len() == i,
            forall|j: int| 0 <= j < i ==> #[trigger] out@[j]@ == sentries@[j]@.decoded(),
    {
        out.push(Entry::from(&sentries[i]));
    }
    assert(out@.map_values(|e: Entry| e@) =~= sentries@.map_values(
        |e: SerdeEntry| e@.decoded(),
    ));
    out
}


// ---------------------------------------------------------------------------
// Configuration state
// ---------------------------------------------------------------------------

/// Serializable mirror of a configuration state.
#[derive(Clone)]
pub struct SerdeConfState {
    pub voters: Vec<u64>,
    pub learners: Vec<u64>,
    pub voters_outgoing: Vec<u64>,
    pub learners_next: Vec<u64>,
    pub auto_leave: bool,
}

impl View for SerdeConfState {
    type V = ConfStateView;

    open spec fn view(&self) -> ConfStateView {
        ConfStateView {
            voters: self.voters@,
            learners: self.learners@,
            voters_outgoing: self.voters_outgoing@,
            learners_next: self.learners_next@,
            auto_leave: self.auto_leave,
        }
    }
}

impl<'a> From<&'a ConfState> for SerdeConfState {
    fn from(cs: &'a ConfState) -> (r: SerdeConfState)
        ensures
            r@ == cs@,
    {
        SerdeConfState {
            voters: copy_ids(&cs.voters),
            learners: copy_ids(&cs.learners),
            voters_outgoing: copy_ids(&cs.voters_outgoing),
            learners_next: copy_ids(&cs.learners_next),
            auto_leave: cs.auto_leave,
        }
    }
}

impl<'a> vstd::std_specs::convert::FromSpecImpl<&'a ConfState> for SerdeConfState {
    open spec fn obeys_from_spec() -> bool {
        false
    }

    open spec fn from_spec(v: &'a ConfState) -> SerdeConfState {
        choose|r: SerdeConfState| r@ == v@
    }
}

impl From<ConfState> for SerdeConfState {
    fn from(cs: ConfState) -> (r: SerdeConfState)
        ensures
            r@ == cs@,
    {
        SerdeConfState {
            voters: cs.voters,
            learners: cs.learners,
            voters_outgoing: cs.voters_outgoing,
            learners_next: cs.learners_next,
            auto_leave: cs.auto_leave,
        }
    }
}

impl vstd::std_specs::convert::FromSpecImpl<ConfState> for SerdeConfState {
    open spec fn obeys_from_spec() -> bool {
        false
    }

    open spec fn from_spec(v: ConfState) -> SerdeConfState {
        choose|r: SerdeConfState| r@ == v@
    }
}

impl From<SerdeConfState> for ConfState {
    fn from(scs: SerdeConfState) -> (r: ConfState)
        ensures
            r@ == scs@,
            unknown_field_numbers(r.unknown_fields).is_empty(),
    {
        ConfState {
            voters: scs.voters,
            learners: scs.learners,
            voters_outgoing: scs.voters_outgoing,
            learners_next: scs.learners_next,
            auto_leave: scs.auto_leave,
            unknown_fields: fresh_unknown_fields(),
            cached_size: fresh_cached_size(),
        }
    }
}

impl vstd::std_specs::convert::FromSpecImpl<SerdeConfState> for ConfState {
    open spec fn obeys_from_spec() -> bool {
        false
    }

    open spec fn from_spec(v: SerdeConfState) -> ConfState {
        choose|r: ConfState| r@ == v@
    }
}

// ---------------------------------------------------------------------------
// Snapshot metadata
// ---------------------------------------------------------------------------

/// Serializable mirror of the metadata of a snapshot.
#[derive(Clone)]
pub struct SerdeSnapshotMetadata {
    pub conf_state: Option<SerdeConfState>,
    pub index: u64,
    pub term: u64,
}

impl View for SerdeSnapshotMetadata {
    type V = SnapshotMetadataView;

    open spec fn view(&self) -> SnapshotMetadataView {
        SnapshotMetadataView {
            conf_state: match self.conf_state {
                Some(c) => Some(c@),
                None => None,
            },
            index: self.index,
            term: self.term,
        }
    }
}

impl<'a> From<&'a SnapshotMetadata> for SerdeSnapshotMetadata {
    fn from(meta: &'a SnapshotMetadata) -> (r: SerdeSnapshotMetadata)
        ensures
            r@ == meta@,
    {
        SerdeSnapshotMetadata {
            conf_state: match conf_state_as_ref(&meta.conf_state) {
                Some(cs) => Some(SerdeConfState::from(cs)),
                None => None,
            },
            index: meta.index,
            term: meta.term,
        }
    }
}

impl<'a> vstd::std_specs::convert::FromSpecImpl<&'a SnapshotMetadata> for SerdeSnapshotMetadata {
    open spec fn obeys_from_spec() -> bool {
        false
    }

    open spec fn from_spec(v: &'a SnapshotMetadata) -> SerdeSnapshotMetadata {
        choose|r: SerdeSnapshotMetadata| r@ == v@
    }
}

impl From<SnapshotMetadata> for SerdeSnapshotMetadata {
    fn from(meta: SnapshotMetadata) -> (r: SerdeSnapshotMetadata)
        ensures
            r@ == meta@,
    {
        SerdeSnapshotMetadata::from(&meta)
    }
}

impl vstd::std_specs::convert::FromSpecImpl<SnapshotMetadata> for SerdeSnapshotMetadata {
    open spec fn obeys_from_spec() -> bool {
        false
    }

    open spec fn from_spec(v: SnapshotMetadata) -> SerdeSnapshotMetadata {
        choose|r: SerdeSnapshotMetadata| r@ == v@
    }
}

impl From<SerdeSnapshotMetadata> for SnapshotMetadata {
    fn from(smeta: SerdeSnapshotMetadata) -> (r: SnapshotMetadata)
        ensures
            r@ == smeta@,
            unknown_field_numbers(r.unknown_fields).is_empty(),
    {
        SnapshotMetadata {
            conf_state: match smeta.conf_state {
                Some(cs) => conf_state_some(ConfState::from(cs)),
                None => conf_state_none(),
            },
            index: smeta.index,
            term: smeta.term,
            unknown_fields: fresh_unknown_fields(),
            cached_size: fresh_cached_size(),
        }
    }
}

impl vstd::std_specs::convert::FromSpecImpl<SerdeSnapshotMetadata> for SnapshotMetadata {
    open spec fn obeys_from_spec() -> bool {
        false
    }

    open spec fn from_spec(v: SerdeSnapshotMetadata) -> SnapshotMetadata {
        choose|r: SnapshotMetadata| r@ == v@
    }
}

// ---------------------------------------------------------------------------
// Snapshot
// ---------------------------------------------------------------------------

/// Serializable mirror of a snapshot; its metadata is always present.
#[derive(Clone)]
pub struct SerdeSnapshot {
    pub data: Vec<u8>,
    pub metadata: SerdeSnapshotMetadata,
}

impl View for SerdeSnapshot {
    type V = SnapshotView;

    open spec fn view(&self) -> SnapshotView {
        SnapshotView { data: self.data@, metadata: Some(self.metadata@) }
    }
}

impl SerdeSnapshot {
    /// The mirror of a snapshot; a snapshot without metadata has none.
    pub fn from_snapshot(snap: &Snapshot) -> (r: SerdeSnapshot)
        requires
            snap@.metadata is Some,
        ensures
            r@ == snap@,
    {
        let meta = metadata_as_ref(&snap.metadata).unwrap();
        SerdeSnapshot { data: copy_bytes(&snap.data), metadata: SerdeSnapshotMetadata::from(meta) }
    }
}

impl From<SerdeSnapshot> for Snapshot {
    fn from(ssnap: SerdeSnapshot) -> (r: Snapshot)
        ensures
            r@ == ssnap@,
            unknown_field_numbers(r.unknown_fields).is_empty(),
    {
        Snapshot {
            data: ssnap.data,
            metadata: metadata_some(SnapshotMetadata::from(ssnap.metadata)),
            unknown_fields: fresh_unknown_fields(),
            cached_size: fresh_cached_size(),
        }
    }
}

impl vstd::std_specs::convert::FromSpecImpl<SerdeSnapshot> for Snapshot {
    open spec fn obeys_from_spec() -> bool {
        false
    }

    open spec fn from_spec(v: SerdeSnapshot) -> Snapshot {
        choose|r: Snapshot| r@ == v@
    }
}

/// The mirror of an optional snapshot.
pub fn serde_snapshot_option(snap: &Option<Snapshot>) -> (r: Option<SerdeSnapshot>)
    requires
        snap matches Some(s) ==> s@.metadata is Some,
    ensures
        match (r, snap) {
            (Some(a), Some(b)) => a@ == b@,
            (None, None) => true,
            _ => false,
        },
{
    match snap {
        Some(s) => Some(SerdeSnapshot::from_snapshot(s)),
        None => None,
    }
}

// ---------------------------------------------------------------------------
// Message
// ---------------------------------------------------------------------------

/// Serializable mirror of a message; the kind is kept as its wire code.
#[derive(Clone)]
pub struct SerdeMessage {
    pub msg_type: i32,
    pub to: u64,
    pub from: u64,
    pub term: u64,
    pub log_term: u64,
    pub index: u64,
    pub entries: Vec<SerdeEntry>,
    pub commit: u64,
    pub commit_term: u64,
    pub snapshot: Option<SerdeSnapshot>,
    pub request_snapshot: u64,
    pub reject: bool,
    pub reject_hint: u64,
    pub context: Vec<u8>,
    pub deprecated_priority: u64,
    pub priority: i64,
}

impl View for SerdeMessage {
    type V = MessageView;

    open spec fn view(&self) -> MessageView {
        MessageView {
            msg_type: self.msg_type,
            to: self.to,
            from: self.from,
            term: self.term,
            log_term: self.log_term,
            index: self.index,
            entries: self.entries@.map_values(|e: SerdeEntry| e@),
            commit: self.commit,
            commit_term: self.commit_term,
            snapshot: match self.snapshot {
                Some(s) => Some(s@),
                None => None,
            },
            request_snapshot: self.request_snapshot,
            reject: self.reject,
            reject_hint: self.reject_hint,
            context: self.context@,
            deprecated_priority: self.deprecated_priority,
            priority: self.priority,
        }
    }
}

/// The message kind that a wire code reads as: the kind it names, or
/// `MsgHup` when it names none.
pub fn message_type_or_hup(code: i32) -> (r: MessageType)
    ensures
        r.code() == crate::eraftpb::decoded_message_type(code),
{
    match MessageType::from_i32(code) {
        Some(t) => t,
        None => MessageType::MsgHup,
    }
}

impl SerdeMessage {
    /// The mirror of a message; a snapshot that it carries must have its
    /// metadata. The kind codes of a message and of its entries always name
    /// kinds.
    pub fn from_message(msg: &Message) -> (r: SerdeMessage)
        requires
            msg@.snapshot_complete(),
        ensures
            r@ == msg@,
            msg@.well_coded(),
    {
        let held = entries_as_slice(&msg.entries);
        proof {
            assert forall|i: int| 0 <= i < msg@.entries.len() implies (
            #[trigger] msg@.entries[i]).well_coded() by {
                assert(msg@.entries[i] == held@[i]@);
            }
        }
        let entries = serde_entries_of(held);
        let snapshot = match snapshot_as_ref(&msg.snapshot) {
            Some(s) => Some(SerdeSnapshot::from_snapshot(s)),
            None => None,
        };
        SerdeMessage {
            msg_type: msg.msg_type.value(),
            to: msg.to,
            from: msg.from,
            term: msg.term,
            log_term: msg.log_term,
            index: msg.index,
            entries,
            commit: msg.commit,
            commit_term: msg.commit_term,
            snapshot,
            request_snapshot: msg.request_snapshot,
            reject: msg.reject,
            reject_hint: msg.reject_hint,
            context: copy_bytes(&msg.context),
            deprecated_priority: msg.deprecated_priority,
            priority: msg.priority,
        }
    }
}

impl From<SerdeMessage> for Message {
    fn from(smsg: SerdeMessage) -> (r: Message)
        ensures
            r@ == smsg@.decoded(),
            unknown_field_numbers(r.unknown_fields).is_empty(),
    {
        let entries = entries_of_serde(smsg.entries.as_slice());
        let snapshot = match smsg.snapshot {
            Some(snap) => snapshot_some(Snapshot::from(snap)),
            None => snapshot_none(),
        };
        let r = Message {
            msg_type: message_type_or_hup(smsg.msg_type),
            to: smsg.to,
            from: smsg.from,
            term: smsg.term,
            log_term: smsg.log_term,
            index: smsg.index,
            entries: entries_from_vec(entries),
            commit: smsg.commit,
            commit_term: smsg.commit_term,
            snapshot,
            request_snapshot: smsg.request_snapshot,
            reject: smsg.reject,
            reject_hint: smsg.reject_hint,
            context: smsg.context,
            deprecated_priority: smsg.deprecated_priority,
            priority: smsg.priority,
            unknown_fields: fresh_unknown_fields(),
            cached_size: fresh_cached_size(),
        };
        assert(r@.entries =~= smsg@.decoded().entries);
        r
    }
}

impl vstd::std_specs::convert::FromSpecImpl<SerdeMessage> for Message {
    open spec fn obeys_from_spec() -> bool {
        false
    }

    open spec fn from_spec(v: SerdeMessage) -> Message {
        choose|r: Message| r@ == v@.decoded()
    }
}

} // verus!
