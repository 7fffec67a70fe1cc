//! Serializable mirror of a node's log, and the rebuilding of a log from it.

use crate::eraftpb::{Entry, EntryView, Snapshot, SnapshotView};
use crate::raft_state::{
    entry_approximate_size, total_approximate_size, RaftLog, RaftLogView, Unstable, UnstableView,
};
use crate::serde_messages::{
    entries_of_serde, serde_entries_of, serde_snapshot_option, SerdeEntry, SerdeSnapshot,
};
use vstd::prelude::*;

verus! {

/// What the mirror of a log holds.
pub struct SerdeRaftLogView {
    pub committed: u64,
    pub persisted: u64,
    pub applied: u64,
    pub unstable_entries: Seq<EntryView>,
    pub unstable_snapshot: Option<SnapshotView>,
    pub unstable_offset: u64,
    pub max_apply_unpersisted_log_limit: u64,
}

impl SerdeRaftLogView {
    /// This mirror holds the log `log`, apart from the size of its unstable
    /// entries, which is not kept.
    pub open spec fn mirrors(self, log: RaftLogView) -> bool {
        &&& self.committed == log.committed
        &&& self.persisted == log.persisted
        &&& self.applied == log.applied
        &&& self.unstable_entries == log.unstable.entries
        &&& self.unstable_snapshot == log.unstable.snapshot
        &&& self.unstable_offset == log.unstable.offset
        &&& self.max_apply_unpersisted_log_limit == log.max_apply_unpersisted_log_limit
    }

    /// The unstable entries that this mirror reads back as.
    pub open spec fn restored_entries(self) -> Seq<EntryView> {
        self.unstable_entries.map_values(|e: EntryView| e.decoded())
    }

    /// The size estimate of the unstable entries fits in a `usize`.
    pub open spec fn restorable(self) -> bool {
        total_approximate_size(self.restored_entries()) <= usize::MAX
    }

    /// The log that this mirror reads back as; the size of the unstable
    /// entries is estimated anew.
    pub open spec fn restored(self) -> RaftLogView {
        RaftLogView {
            unstable: UnstableView {
                snapshot: self.unstable_snapshot,
                entries: self.restored_entries(),
                entries_size: total_approximate_size(self.restored_entries()) as usize,
                offset: self.unstable_offset,
            },
            committed: self.committed,
            persisted: self.persisted,
            applied: self.applied,
            max_apply_unpersisted_log_limit: self.max_apply_unpersisted_log_limit,
        }
    }
}

/// Serializable mirror of a log; the stable storage is not part of it.
pub struct SerdeRaftLog {
    pub committed: u64,
    pub persisted: u64,
    pub applied: u64,
    pub unstable_entries: Vec<SerdeEntry>,
    pub unstable_snapshot: Option<SerdeSnapshot>,
    pub unstable_offset: u64,
    pub max_apply_unpersisted_log_limit: u64,
}

impl View for SerdeRaftLog {
    type V = SerdeRaftLogView;

    open spec fn view(&self) -> SerdeRaftLogView {
        SerdeRaftLogView {
            committed: self.committed,
            persisted: self.persisted,
            applied: self.applied,
            unstable_entries: self.unstable_entries@.map_values(|e: SerdeEntry| e@),
            unstable_snapshot: match self.unstable_snapshot {
                Some(s) => Some(s@),
                None => None,
            },
            unstable_offset: self.unstable_offset,
            max_apply_unpersisted_log_limit: self.max_apply_unpersisted_log_limit,
        }
    }
}

/// The size estimate of the first `i` entries of a list is at most that of
/// the whole list.
pub proof fn lemma_total_size_prefix(es: Seq<EntryView>, i: int)
    requires
        0 <= i <= es.len(),
    ensures
        total_approximate_size(es.take(i)) <= total_approximate_size(es),
    decreases es.len() - i,
{
    if i < es.len() {
        lemma_total_size_prefix(es, i + 1);
        assert(es.take(i + 1).drop_last() =~= es.take(i));
    } else {
        assert(es.take(i) =~= es);
    }
}

/// The sum of the size estimates of a list of entries, which must fit in a
/// `usize`.
pub fn entries_size_of(entries: &Vec<Entry>) -> (r: usize)
    requires
        total_approximate_size(entries@.map_values(|e: Entry| e@)) <= usize::MAX,
    ensures
        r == total_approximate_size(entries@.map_values(|e: Entry| e@)),
{
    let ghost es = entries@.map_values(|e: Entry| e@);
    let mut total: usize = 0;
    for i in 0..entries.len()
        invariant
            es == entries@.map_values(|e: Entry| e@),
            total_approximate_size(es) <= usize::MAX,
            total == total_approximate_size(es.take(i as int)),
    {
        proof {
            assert(es.take(i + 1).drop_last() =~= es.take(i as int));
            assert(es.take(i + 1).last() == entries@[i as int]@);
            lemma_total_size_prefix(es, i + 1);
        }
        let size: usize = entry_approximate_size(&entries[i]);
        total = total + size;
    }
    proof {
        assert(es.take(entries@.len() as int) =~= es);
    }
    total
}

/// Whether the kind codes of a log's unstable entries name kinds.
pub open spec fn log_well_coded(log: RaftLogView) -> bool {
    forall|i: int|
        0 <= i < log.unstable.entries.len() ==> (#[trigger] log.unstable.entries[i]).well_coded()
}

impl SerdeRaftLog {
    /// The mirror of a log; its unstable snapshot, if any, must have its
    /// metadata. The kind codes of its entries always name kinds.
    pub fn from_raft_log<T>(log: &RaftLog<T>) -> (r: SerdeRaftLog)
        requires
            log@.unstable.snapshot matches Some(s) ==> s.metadata is Some,
        ensures
            r@.mirrors(log@),
            log_well_coded(log@),
            r.committed == log.committed,
            r.persisted == log.persisted,
            r.applied == log.applied,
            r.max_apply_unpersisted_log_limit == log.max_apply_unpersisted_log_limit,
            r.unstable_offset == log.unstable.offset,
    {
        proof {
            assert forall|i: int| 0 <= i < log@.unstable.entries.len() implies (
            #[trigger] log@.unstable.entries[i]).well_coded() by {
                assert(log@.unstable.entries[i] == log.unstable.entries@[i]@);
            }
        }
        let unstable_entries = serde_entries_of(log.unstable.entries.as_slice());
        let unstable_snapshot = serde_snapshot_option(&log.unstable.snapshot);
        let r = SerdeRaftLog {
            committed: log.committed,
            persisted: log.persisted,
            applied: log.applied,
            unstable_entries,
            unstable_snapshot,
            unstable_offset: log.unstable.offset,
            max_apply_unpersisted_log_limit: log.max_apply_unpersisted_log_limit,
        };
        assert(r@.unstable_snapshot == log@.unstable.snapshot);
        r
    }

    /// Rebuilds the log that this mirror holds over the stable storage
    /// `storage`, estimating the size of the unstable entries anew; that
    /// estimate must fit in a `usize`.
    pub fn into_raft_log<T>(self, storage: T) -> (r: RaftLog<T>)
        requires
            self@.restorable(),
        ensures
            r@ == self@.restored(),
            r.store == storage,
            r.committed == self.committed,
            r.persisted == self.persisted,
            r.applied == self.applied,
            r.max_apply_unpersisted_log_limit == self.max_apply_unpersisted_log_limit,
            r.unstable.offset == self.unstable_offset,
    {
        let ghost sv = self@;
        let entries = entries_of_serde(self.unstable_entries.as_slice());
        assert(entries@.map_values(|e: Entry| e@) =~= sv.restored_entries());
        let entries_size: usize = entries_size_of(&entries);
        let snapshot: Option<Snapshot> = match self.unstable_snapshot {
            Some(s) => Some(Snapshot::from(s)),
            None => None,
        };
        RaftLog {
            store: storage,
            unstable: Unstable { entries, entries_size, offset: self.unstable_offset, snapshot },
            committed: self.committed,
            persisted: self.persisted,
            applied: self.applied,
            max_apply_unpersisted_log_limit: self.max_apply_unpersisted_log_limit,
        }
    }
}

} // verus!
