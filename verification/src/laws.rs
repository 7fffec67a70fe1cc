//! Laws of the conversions: what a round trip through a mirror gives back, and
//! what every rebuilt value keeps.

use crate::confchange::{
    lemma_restore_outcome_settled, lemma_restore_outcome_valid, restore_outcome,
};
use crate::eraftpb::{
    decoded_entry_type, decoded_message_type, entry_type_of_code, message_type_of_code,
    ConfStateView, Entry, EntryType, EntryView, HardStateView, Message, MessageType, MessageView,
};
use crate::raft_state::{
    keys_distinct, total_approximate_size, RaftCoreView, RaftLogView, RaftView, RawNodeView,
    ReadOnlyView, SoftState,
};
use crate::serde_log::{lemma_total_size_prefix, log_well_coded, SerdeRaftLogView};
use crate::serde_node::{raft_well_coded, SerdeRaftCoreView, SerdeRaftView, SerdeRawNodeView};
use crate::serde_state::{collected, read_only_well_coded, upsert, SerdeReadOnlyView};
use crate::serde_tracker::{highest_next_idx, is_highest_next_idx, SerdeProgressTrackerView};
use crate::tracker::{ProgressTrackerView, ProgressView};
use vstd::prelude::*;

verus! {

// ---------------------------------------------------------------------------
// Kind codes
// ---------------------------------------------------------------------------

/// Reading an entry kind back from its wire code gives the same kind.
pub proof fn entry_type_code_round_trip(t: EntryType)
    ensures
        entry_type_of_code(t.code()) == Some(t),
        decoded_entry_type(t.code()) == t.code(),
{
}

/// Reading a message kind back from its wire code gives the same kind.
pub proof fn message_type_code_round_trip(t: MessageType)
    ensures
        message_type_of_code(t.code()) == Some(t),
        decoded_message_type(t.code()) == t.code(),
{
}

/// An entry whose kind code names a kind reads back unchanged; reading back
/// twice is reading back once.
pub proof fn entry_decoding_laws(e: EntryView)
    ensures
        e.well_coded() ==> e.decoded() == e,
        e.decoded().well_coded(),
        e.decoded().decoded() == e.decoded(),
{
}

/// An entry converted to its mirror and back is the same entry.
pub proof fn entry_round_trip(e: Entry)
    ensures
        e@.well_coded(),
        e@.decoded() == e@,
{
    entry_type_code_round_trip(e.entry_type);
}

/// A message whose kind codes name kinds reads back unchanged; reading back
/// twice is reading back once.
pub proof fn message_decoding_laws(m: MessageView)
    ensures
        m.well_coded() ==> m.decoded() == m,
        m.decoded().well_coded(),
        m.decoded().decoded() == m.decoded(),
{
    if m.well_coded() {
        assert(m.decoded().entries =~= m.entries);
    }
    assert(m.decoded().decoded().entries =~= m.decoded().entries);
}

/// A message whose kind codes name kinds, as those of every message do
/// (see [`SerdeMessage::from_message`]), converted to its mirror and back, is
/// the same message.
pub proof fn message_round_trip(m: Message)
    requires
        m@.well_coded(),
    ensures
        m@.decoded() == m@,
{
    message_decoding_laws(m@);
}

// ---------------------------------------------------------------------------
// Read-only bookkeeping
// ---------------------------------------------------------------------------

/// Collecting pairs whose keys are distinct keeps them as they are.
pub proof fn collected_distinct_keys<V>(pairs: Seq<(Seq<u8>, V)>)
    requires
        keys_distinct(pairs),
    ensures
        collected(pairs) == pairs,
    decreases pairs.len(),
{
    if pairs.len() > 0 {
        let init = pairs.drop_last();
        assert(keys_distinct(init));
        collected_distinct_keys(init);
        let k = pairs.last().0;
        assert(!exists|i: int| 0 <= i < init.len() && #[trigger] init[i].0 == k) by {
            if exists|i: int| 0 <= i < init.len() && #[trigger] init[i].0 == k {
                let i: int = choose|i: int| 0 <= i < init.len() && #[trigger] init[i].0 == k;
                assert(pairs[i].0 == pairs[pairs.len() - 1].0);
            }
        }
        assert(upsert(init, k, pairs.last().1) =~= pairs);
    }
}

/// Collected pairs have distinct keys.
pub proof fn collected_keys_distinct<V>(pairs: Seq<(Seq<u8>, V)>)
    ensures
        keys_distinct(collected(pairs)),
    decreases pairs.len(),
{
    if pairs.len() > 0 {
        let init = collected(pairs.drop_last());
        collected_keys_distinct(pairs.drop_last());
        let k = pairs.last().0;
        let v = pairs.last().1;
        if exists|i: int| 0 <= i < init.len() && #[trigger] init[i].0 == k {
            let i: int = choose|i: int| 0 <= i < init.len() && #[trigger] init[i].0 == k;
            let u = init.update(i, (k, v));
            assert forall|a: int, b: int| 0 <= a < b < u.len() implies #[trigger] u[a].0
                != #[trigger] u[b].0 by {
                assert(init[a].0 != init[b].0);
            }
        } else {
            let u = init.push((k, v));
            assert forall|a: int, b: int| 0 <= a < b < u.len() implies #[trigger] u[a].0
                != #[trigger] u[b].0 by {
                if b < init.len() {
                    assert(init[a].0 != init[b].0);
                } else {
                    assert(u[a] == init[a]);
                }
            }
        }
    }
}

/// The pending requests of a read-only bookkeeping are keyed by distinct
/// contexts, and their kind codes name kinds.
pub open spec fn read_only_well_formed(ro: ReadOnlyView) -> bool {
    &&& ro.wf()
    &&& read_only_well_coded(ro)
}

/// Read-only bookkeeping whose pending requests are keyed by distinct
/// contexts and whose messages are well coded reads back from its mirror as
/// it was.
pub proof fn read_only_round_trip(ro: ReadOnlyView, s: SerdeReadOnlyView)
    requires
        read_only_well_formed(ro),
        s.mirrors(ro),
    ensures
        s.restored() == ro,
{
    assert forall|i: int| 0 <= i < ro.pending_read_index.len() implies #[trigger] s.restored_pending()[i]
        == ro.pending_read_index[i] by {
        let st = s.pending_read_index[i].1;
        let orig = ro.pending_read_index[i].1;
        assert(s.pending_read_index[i].0 == ro.pending_read_index[i].0);
        assert(st.mirrors(orig));
        assert(orig.req.well_coded());
        message_decoding_laws(orig.req);
        assert(st.restored() == orig);
    }
    assert(s.restored_pending() =~= ro.pending_read_index);
    collected_distinct_keys(ro.pending_read_index);
}

// ---------------------------------------------------------------------------
// Progress tracker
// ---------------------------------------------------------------------------

/// A finite map of records with at least one record has a greatest next
/// index.
proof fn lemma_highest_next_idx_exists(m: Map<u64, ProgressView>)
    requires
        m.dom().finite(),
        !m.dom().is_empty(),
    ensures
        exists|v: u64| is_highest_next_idx(m, v),
    decreases m.dom().len(),
{
    let k = m.dom().choose();
    assert(m.dom().contains(k)) by {
        if !m.dom().contains(k) {
            assert(m.dom() =~= Set::empty());
        }
    }
    let rest = m.remove(k);
    assert(rest.dom() =~= m.dom().remove(k));
    if rest.dom().is_empty() {
        assert forall|id: u64| #[trigger] m.contains_key(id) implies m[id].next_idx <= m[k].next_idx by {
            if id != k {
                assert(rest.dom().contains(id));
            }
        }
        assert(is_highest_next_idx(m, m[k].next_idx));
    } else {
        lemma_highest_next_idx_exists(rest);
        let w: u64 = choose|w: u64| is_highest_next_idx(rest, w);
        let v: u64 = if w < m[k].next_idx { m[k].next_idx } else { w };
        assert forall|id: u64| #[trigger] m.contains_key(id) implies m[id].next_idx <= v by {
            if id != k {
                assert(rest.contains_key(id));
            }
        }
        if w < m[k].next_idx {
            assert(m.contains_key(k) && m[k].next_idx == v);
        } else {
            let j: u64 = choose|j: u64| #[trigger] rest.contains_key(j) && rest[j].next_idx == w;
            assert(m.contains_key(j) && m[j].next_idx == v);
        }
        assert(is_highest_next_idx(m, v));
    }
}

/// The next index from which rebuilt members without a mirrored record
/// probe is at least the next index of every mirrored record, and is the next
/// index of one of them; with no mirrored record it is one.
pub proof fn highest_next_idx_is_greatest(m: Map<u64, ProgressView>)
    requires
        m.dom().finite(),
    ensures
        forall|id: u64| #[trigger] m.contains_key(id) ==> m[id].next_idx <= highest_next_idx(m),
        !m.dom().is_empty() ==> exists|id: u64|
            #[trigger] m.contains_key(id) && m[id].next_idx == highest_next_idx(m),
        m.dom().is_empty() ==> highest_next_idx(m) == 1,
{
    if !m.dom().is_empty() {
        lemma_highest_next_idx_exists(m);
    } else {
        assert forall|id: u64| #[trigger] m.contains_key(id) implies m[id].next_idx <= highest_next_idx(m) by {
            assert(m.dom().contains(id));
        }
    }
}

/// A rebuilt tracker always keeps its invariants, whether or not every step
/// of rebuilding its configuration succeeded: its configuration keeps those
/// of a configuration, and it has a record for each member and none for
/// anyone else.
pub proof fn restored_tracker_consistent(s: SerdeProgressTrackerView)
    ensures
        s.restored().consistent(),
{
    let st = restore_outcome(s.conf_state()).0;
    lemma_restore_outcome_settled(s.conf_state());
    assert(s.restored().progress.dom() =~= st.ids);
}

/// What `restore` installs in an empty tracker, for any configuration state,
/// keeps the invariants of a tracker.
pub proof fn restored_configuration_consistent(
    t: ProgressTrackerView,
    cs: ConfStateView,
    next_idx: u64,
)
    ensures
        (ProgressTrackerView {
            progress: Map::new(
                |id: u64| restore_outcome(cs).0.ids.contains(id),
                |id: u64| ProgressView::joined(next_idx, t.max_inflight),
            ),
            conf: restore_outcome(cs).0.conf,
            ..t
        }).consistent(),
{
    let st = restore_outcome(cs).0;
    lemma_restore_outcome_settled(cs);
    let installed = ProgressTrackerView {
        progress: Map::new(
            |id: u64| st.ids.contains(id),
            |id: u64| ProgressView::joined(next_idx, t.max_inflight),
        ),
        conf: st.conf,
        ..t
    };
    assert(installed.progress.dom() =~= st.ids);
}

/// `restore` rebuilds a configuration state that keeps the invariants of a
/// configuration, and has no member of id zero, without error: the tracker
/// gets that configuration, with the record of a just-joined peer for each
/// member.
pub proof fn restore_valid_configuration(cs: ConfStateView)
    requires
        cs.configuration().valid(),
        !cs.configuration().ids().contains(0),
    ensures
        restore_outcome(cs).1,
        restore_outcome(cs).0.conf == cs.configuration(),
        restore_outcome(cs).0.ids == cs.configuration().ids(),
{
    lemma_restore_outcome_valid(cs);
}

/// A tracker that keeps its invariants and has no member of id zero reads
/// back from its mirror as it was.
pub proof fn tracker_round_trip(t: ProgressTrackerView, s: SerdeProgressTrackerView)
    requires
        t.consistent(),
        !t.conf.ids().contains(0),
        s.mirrors(t),
    ensures
        s.restored() == t,
{
    let cs = s.conf_state();
    assert(cs.configuration() == t.conf);
    lemma_restore_outcome_valid(cs);
    assert(s.restored().progress =~= t.progress);
}

// ---------------------------------------------------------------------------
// Log, core state, state machine, node
// ---------------------------------------------------------------------------

/// A log reads back from its mirror with the same indexes, limit, offset
/// and unstable snapshot; its unstable entries read back one by one, the same
/// when their kind codes name kinds; and the size of its unstable entries is
/// estimated anew from the entries read back, never taken from the log.
pub proof fn log_fields_round_trip(log: RaftLogView, s: SerdeRaftLogView)
    requires
        s.mirrors(log),
    ensures
        s.restored().committed == log.committed,
        s.restored().persisted == log.persisted,
        s.restored().applied == log.applied,
        s.restored().max_apply_unpersisted_log_limit == log.max_apply_unpersisted_log_limit,
        s.restored().unstable.offset == log.unstable.offset,
        s.restored().unstable.snapshot == log.unstable.snapshot,
        s.restored().unstable.entries == log.unstable.entries.map_values(
            |e: EntryView| e.decoded(),
        ),
        log_well_coded(log) ==> s.restored().unstable.entries == log.unstable.entries,
        s.restorable() ==> s.restored().unstable.entries_size as int == total_approximate_size(
            s.restored().unstable.entries,
        ),
{
    if log_well_coded(log) {
        assert(s.restored_entries() =~= log.unstable.entries);
    }
    let es = s.restored_entries();
    lemma_total_size_prefix(es, 0);
    assert(es.take(0) =~= Seq::<EntryView>::empty());
}

/// A log whose size bookkeeping is the estimate of its unstable entries, and
/// whose entries are well coded, reads back from its mirror as it was.
pub proof fn log_round_trip(log: RaftLogView, s: SerdeRaftLogView)
    requires
        s.mirrors(log),
        log.unstable.entries_size == total_approximate_size(log.unstable.entries),
        log_well_coded(log),
    ensures
        s.restorable(),
        s.restored() == log,
{
    assert(s.restored_entries() =~= log.unstable.entries);
}

/// A core state is well formed for a round trip: its election timeout bounds
/// are set (an unset bound reads back as the one its election timeout
/// yields, which is zero only when that timeout is), its size bookkeeping is
/// the estimate of its unstable entries, its entries and messages are well
/// coded, and its pending read requests are keyed by distinct contexts.
pub open spec fn core_well_formed(c: RaftCoreView) -> bool {
    &&& (c.min_election_timeout != 0 || c.election_timeout == 0)
    &&& (c.max_election_timeout != 0 || c.election_timeout == 0)
    &&& c.raft_log.unstable.entries_size == total_approximate_size(c.raft_log.unstable.entries)
    &&& log_well_coded(c.raft_log)
    &&& read_only_well_formed(c.read_only)
}

/// Every part of a core state but its log and its read-only bookkeeping
/// (terms, vote, id, role, leader, transfer target, read states, timeouts
/// and elapsed ticks, window and message sizes, flags, priority, size
/// limits) reads back from its mirror as it was, provided its election
/// timeout bounds are set (an unset bound reads back as the one its election
/// timeout yields).
pub proof fn core_settings_round_trip(c: RaftCoreView, s: SerdeRaftCoreView)
    requires
        s.mirrors(c),
        c.min_election_timeout != 0 || c.election_timeout == 0,
        c.max_election_timeout != 0 || c.election_timeout == 0,
    ensures
        s.restored() == (RaftCoreView {
            raft_log: s.restored().raft_log,
            read_only: s.restored().read_only,
            ..c
        }),
{
}

/// A well-formed core state reads back from its mirror as it was.
pub proof fn core_round_trip(c: RaftCoreView, s: SerdeRaftCoreView)
    requires
        core_well_formed(c),
        s.mirrors(c),
    ensures
        s.restorable(),
        s.restored() == c,
{
    log_round_trip(c.raft_log, s.raft_log);
    read_only_round_trip(c.read_only, s.read_only);
}

/// A state machine is well formed for a round trip: its tracker keeps its
/// invariants and has no member of id zero, its messages are well coded, and
/// its core state is well formed.
pub open spec fn raft_well_formed(r: RaftView) -> bool {
    &&& r.prs.consistent()
    &&& !r.prs.conf.ids().contains(0)
    &&& raft_well_coded(r)
    &&& core_well_formed(r.r)
}

/// A well-formed state machine reads back from its mirror as it was.
pub proof fn raft_round_trip(r: RaftView, s: SerdeRaftView)
    requires
        raft_well_formed(r),
        s.mirrors(r),
    ensures
        s.r.restorable(),
        s.restored() == r,
{
    core_round_trip(r.r, s.r);
    tracker_round_trip(r.prs, s.prs);
    let decoded = s.msgs.map_values(|m: MessageView| m.decoded());
    assert forall|i: int| 0 <= i < r.msgs.len() implies #[trigger] decoded[i] == r.msgs[i] by {
        message_decoding_laws(r.msgs[i]);
    }
    assert(decoded =~= r.msgs);
}

/// A node whose state machine is well formed reads back from its mirror as
/// it was.
pub proof fn node_round_trip(n: RawNodeView, s: SerdeRawNodeView)
    requires
        raft_well_formed(n.raft),
        s.mirrors(n),
    ensures
        s.raft.r.restorable(),
        s.restored() == n,
{
    raft_round_trip(n.raft, s.raft);
}

/// The states last handed to the application, the batch counter, the
/// records of the batches in flight (their number, order and contents) and
/// the commit index since which entries were handed out read back from a
/// node's mirror as they were.
pub proof fn node_bookkeeping_round_trip(n: RawNodeView, s: SerdeRawNodeView)
    requires
        s.mirrors(n),
    ensures
        s.restored().prev_ss == n.prev_ss,
        s.restored().prev_hs == n.prev_hs,
        s.restored().max_number == n.max_number,
        s.restored().records == n.records,
        s.restored().commit_since_index == n.commit_since_index,
{
}

/// The id, term, vote, role and leader of a node's state machine, hence its
/// soft and hard states, its committed and applied indexes, and the number of
/// its waiting messages read back from the node's mirror as they were.
pub proof fn node_state_round_trip(n: RawNodeView, s: SerdeRawNodeView)
    requires
        s.mirrors(n),
    ensures
        s.restored().raft.r.id == n.raft.r.id,
        s.restored().raft.r.term == n.raft.r.term,
        s.restored().raft.r.vote == n.raft.r.vote,
        s.restored().raft.r.state == n.raft.r.state,
        s.restored().raft.r.leader_id == n.raft.r.leader_id,
        s.restored().raft.r.raft_log.committed == n.raft.r.raft_log.committed,
        s.restored().raft.r.raft_log.applied == n.raft.r.raft_log.applied,
        s.restored().raft.msgs.len() == n.raft.msgs.len(),
        s.soft_state == (SoftState {
            leader_id: s.restored().raft.r.leader_id,
            raft_state: s.restored().raft.r.state,
        }),
        s.hard_state == (HardStateView {
            term: s.restored().raft.r.term,
            vote: s.restored().raft.r.vote,
            commit: s.restored().raft.r.raft_log.committed,
        }),
{
}

} // verus!
