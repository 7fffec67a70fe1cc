//! The leader's view of its followers: per-peer progress, the group's voting
//! configuration, and the votes of an election.

use crate::eraftpb::ConfStateView;
use std::collections::{HashMap, HashSet};
use vstd::prelude::*;

verus! {

broadcast use vstd::std_specs::hash::group_hash_axioms;

// ---------------------------------------------------------------------------
// Progress of one peer
// ---------------------------------------------------------------------------

/// How the leader is replicating to a peer.
#[derive(Clone, Copy, Debug, PartialEq, Eq, Structural)]
pub enum ProgressState {
    Probe,
    Replicate,
    Snapshot,
}

/// What a window of in-flight messages holds.
pub struct InflightsView {
    pub start: usize,
    pub count: usize,
    pub cap: usize,
    pub buffer: Seq<u64>,
    pub incoming_cap: Option<usize>,
}

/// A ring buffer of the last indexes of the messages in flight to a peer.
pub struct Inflights {
    pub start: usize,
    pub count: usize,
    pub buffer: Vec<u64>,
    pub cap: usize,
    pub incoming_cap: Option<usize>,
}

impl View for Inflights {
    type V = InflightsView;

    open spec fn view(&self) -> InflightsView {
        InflightsView {
            start: self.start,
            count: self.count,
            cap: self.cap,
            buffer: self.buffer@,
            incoming_cap: self.incoming_cap,
        }
    }
}

impl InflightsView {
    /// An empty window of capacity `cap`.
    pub open spec fn empty(cap: usize) -> InflightsView {
        InflightsView { start: 0, count: 0, cap, buffer: Seq::empty(), incoming_cap: None }
    }
}

impl Inflights {
    /// An empty window of capacity `cap`.
    pub fn new(cap: usize) -> (r: Inflights)
        ensures
            r@ == InflightsView::empty(cap),
    {
        Inflights { start: 0, count: 0, buffer: Vec::with_capacity(cap), cap, incoming_cap: None }
    }
}

/// What the leader knows of one peer's log.
pub struct ProgressView {
    pub matched: u64,
    pub next_idx: u64,
    pub state: ProgressState,
    pub paused: bool,
    pub pending_snapshot: u64,
    pub pending_request_snapshot: u64,
    pub recent_active: bool,
    pub ins: InflightsView,
    pub commit_group_id: u64,
    pub committed_index: u64,
}

/// The leader's record of one peer's log.
pub struct Progress {
    pub matched: u64,
    pub next_idx: u64,
    pub state: ProgressState,
    pub paused: bool,
    pub pending_snapshot: u64,
    pub pending_request_snapshot: u64,
    pub recent_active: bool,
    pub ins: Inflights,
    pub commit_group_id: u64,
    pub committed_index: u64,
}

impl View for Progress {
    type V = ProgressView;

    open spec fn view(&self) -> ProgressView {
        ProgressView {
            matched: self.matched,
            next_idx: self.next_idx,
            state: self.state,
            paused: self.paused,
            pending_snapshot: self.pending_snapshot,
            pending_request_snapshot: self.pending_request_snapshot,
            recent_active: self.recent_active,
            ins: self.ins@,
            commit_group_id: self.commit_group_id,
            committed_index: self.committed_index,
        }
    }
}

impl ProgressView {
    /// The record of a peer that nothing is known of yet: probing from
    /// `next_idx`, with an empty window of capacity `ins_size`.
    pub open spec fn initial(next_idx: u64, ins_size: usize) -> ProgressView {
        ProgressView {
            matched: 0,
            next_idx,
            state: ProgressState::Probe,
            paused: false,
            pending_snapshot: 0,
            pending_request_snapshot: 0,
            recent_active: false,
            ins: InflightsView::empty(ins_size),
            commit_group_id: 0,
            committed_index: 0,
        }
    }

    /// The record of a peer that has just joined the group: as
    /// [`ProgressView::initial`], but counted as recently active.
    pub open spec fn joined(next_idx: u64, ins_size: usize) -> ProgressView {
        ProgressView { recent_active: true, ..ProgressView::initial(next_idx, ins_size) }
    }
}

impl Progress {
    /// The record of a peer that nothing is known of yet.
    pub fn new(next_idx: u64, ins_size: usize) -> (r: Progress)
        ensures
            r@ == ProgressView::initial(next_idx, ins_size),
    {
        Progress {
            matched: 0,
            next_idx,
            state: ProgressState::Probe,
            paused: false,
            pending_snapshot: 0,
            pending_request_snapshot: 0,
            recent_active: false,
            ins: Inflights::new(ins_size),
            commit_group_id: 0,
            committed_index: 0,
        }
    }
}

// ---------------------------------------------------------------------------
// Voting configuration
// ---------------------------------------------------------------------------

/// A set of voters that decides by majority.
pub struct MajorityConfig {
    pub voters: HashSet<u64>,
}

impl View for MajorityConfig {
    type V = Set<u64>;

    open spec fn view(&self) -> Set<u64> {
        self.voters@
    }
}

impl MajorityConfig {
    /// The majority configuration of the given voters.
    pub fn new(voters: HashSet<u64>) -> (r: MajorityConfig)
        ensures
            r@ == voters@,
    {
        MajorityConfig { voters }
    }
}

/// What a joint configuration holds.
pub struct JointConfigView {
    pub incoming: Set<u64>,
    pub outgoing: Set<u64>,
}

/// Two majority configurations that must both agree; the outgoing one is
/// empty outside a membership change.
pub struct JointConfig {
    pub incoming: MajorityConfig,
    pub outgoing: MajorityConfig,
}

impl View for JointConfig {
    type V = JointConfigView;

    open spec fn view(&self) -> JointConfigView {
        JointConfigView { incoming: self.incoming@, outgoing: self.outgoing@ }
    }
}

/// What a configuration holds.
pub struct ConfigurationView {
    pub voters: JointConfigView,
    pub learners: Set<u64>,
    pub learners_next: Set<u64>,
    pub auto_leave: bool,
}

impl ConfigurationView {
    /// The configuration with no member.
    pub open spec fn empty() -> ConfigurationView {
        ConfigurationView {
            voters: JointConfigView { incoming: Set::empty(), outgoing: Set::empty() },
            learners: Set::empty(),
            learners_next: Set::empty(),
            auto_leave: false,
        }
    }

    /// Every member of the configuration, voter or learner.
    pub open spec fn ids(self) -> Set<u64> {
        self.voters.incoming + self.voters.outgoing + self.learners + self.learners_next
    }

    /// The invariants of a configuration: it has voters when it has any
    /// member; a learner is no voter; a learner that waits for the joint
    /// configuration to end is an outgoing voter and no incoming one; and
    /// outside a joint configuration nobody waits and nothing leaves
    /// automatically.
    pub open spec fn valid(self) -> bool {
        &&& self.voters.incoming.is_empty() ==> self.ids().is_empty()
        &&& self.learners.disjoint(self.voters.incoming)
        &&& self.learners.disjoint(self.voters.outgoing)
        &&& self.learners_next.subset_of(self.voters.outgoing)
        &&& self.learners_next.disjoint(self.voters.incoming)
        &&& self.voters.outgoing.is_empty() ==> (self.learners_next.is_empty()
            && !self.auto_leave)
    }
}

impl ConfStateView {
    /// The configuration that a configuration state records.
    pub open spec fn configuration(self) -> ConfigurationView {
        ConfigurationView {
            voters: JointConfigView {
                incoming: self.voters.to_set(),
                outgoing: self.voters_outgoing.to_set(),
            },
            learners: self.learners.to_set(),
            learners_next: self.learners_next.to_set(),
            auto_leave: self.auto_leave,
        }
    }
}

/// The members of a Raft group and how they vote.
pub struct Configuration {
    pub voters: JointConfig,
    pub learners: HashSet<u64>,
    pub learners_next: HashSet<u64>,
    pub auto_leave: bool,
}

impl View for Configuration {
    type V = ConfigurationView;

    open spec fn view(&self) -> ConfigurationView {
        ConfigurationView {
            voters: self.voters@,
            learners: self.learners@,
            learners_next: self.learners_next@,
            auto_leave: self.auto_leave,
        }
    }
}

impl Configuration {
    /// The configuration with no member.
    pub fn empty() -> (r: Configuration)
        ensures
            r@ == ConfigurationView::empty(),
    {
        Configuration {
            voters: JointConfig {
                incoming: MajorityConfig::new(HashSet::new()),
                outgoing: MajorityConfig::new(HashSet::new()),
            },
            learners: HashSet::new(),
            learners_next: HashSet::new(),
            auto_leave: false,
        }
    }
}

// ---------------------------------------------------------------------------
// Progress tracker
// ---------------------------------------------------------------------------

/// What a progress tracker holds.
pub struct ProgressTrackerView {
    pub progress: Map<u64, ProgressView>,
    pub conf: ConfigurationView,
    pub votes: Map<u64, bool>,
    pub max_inflight: usize,
    pub group_commit: bool,
}

impl ProgressTrackerView {
    /// A tracker whose records are exactly those of its configuration's
    /// members, under a configuration that keeps its invariants.
    pub open spec fn consistent(self) -> bool {
        &&& self.conf.valid()
        &&& self.progress.dom() == self.conf.ids()
    }
}

/// The leader's records of its peers, the group configuration, and the votes
/// of the current election.
pub struct ProgressTracker {
    pub(crate) progress: HashMap<u64, Progress>,
    pub(crate) conf: Configuration,
    pub(crate) votes: HashMap<u64, bool>,
    pub(crate) max_inflight: usize,
    pub(crate) group_commit: bool,
}

impl View for ProgressTracker {
    type V = ProgressTrackerView;

    closed spec fn view(&self) -> ProgressTrackerView {
        ProgressTrackerView {
            progress: self.progress@.map_values(|p: Progress| p@),
            conf: self.conf@,
            votes: self.votes@,
            max_inflight: self.max_inflight,
            group_commit: self.group_commit,
        }
    }
}

impl ProgressTracker {
    /// What the view of a tracker is made of, for the rest of the crate.
    pub(crate) proof fn lemma_view_fields(&self)
        ensures
            self@ == (ProgressTrackerView {
                progress: self.progress@.map_values(|p: Progress| p@),
                conf: self.conf@,
                votes: self.votes@,
                max_inflight: self.max_inflight,
                group_commit: self.group_commit,
            }),
    {
    }

    /// A tracker with no member, no vote, and group commit off; the
    /// capacities are hints.
    pub fn with_capacity(voters: usize, learners: usize, max_inflight: usize) -> (r:
        ProgressTracker)
        requires
            voters + learners <= usize::MAX,
        ensures
            r@ == (ProgressTrackerView {
                progress: Map::empty(),
                conf: ConfigurationView::empty(),
                votes: Map::empty(),
                max_inflight,
                group_commit: false,
            }),
    {
        let r = ProgressTracker {
            progress: HashMap::with_capacity(voters + learners),
            conf: Configuration::empty(),
            votes: HashMap::with_capacity(voters),
            max_inflight,
            group_commit: false,
        };
        assert(r@.progress =~= Map::empty());
        r
    }

    /// Turns group commit on or off.
    pub fn enable_group_commit(&mut self, enable: bool)
        ensures
            final(self)@ == (ProgressTrackerView { group_commit: enable, ..old(self)@ }),
    {
        self.group_commit = enable;
    }

    /// Whether group commit is on.
    pub fn group_commit(&self) -> (r: bool)
        ensures
            r == self@.group_commit,
    {
        self.group_commit
    }

    /// The capacity of the in-flight window of each peer.
    pub fn max_inflight(&self) -> (r: usize)
        ensures
            r == self@.max_inflight,
    {
        self.max_inflight
    }

    /// The group configuration.
    pub fn conf(&self) -> (r: &Configuration)
        ensures
            r@ == self@.conf,
    {
        &self.conf
    }

    /// The votes of the current election, by voter.
    pub fn votes(&self) -> (r: &HashMap<u64, bool>)
        ensures
            r@ == self@.votes,
    {
        &self.votes
    }

    /// The record of each peer, by id.
    pub fn progress(&self) -> (r: &HashMap<u64, Progress>)
        ensures
            r@.map_values(|p: Progress| p@) == self@.progress,
    {
        &self.progress
    }

    /// Replaces the record of peer `id` by `pr`, when the tracker has a record
    /// of that peer; tells whether it had one.
    pub fn update_progress(&mut self, id: u64, pr: Progress) -> (updated: bool)
        ensures
            updated == old(self)@.progress.contains_key(id),
            final(self)@ == (ProgressTrackerView {
                progress: if updated {
                    old(self)@.progress.insert(id, pr@)
                } else {
                    old(self)@.progress
                },
                ..old(self)@
            }),
    {
        if self.progress.contains_key(&id) {
            self.progress.insert(id, pr);
            proof {
                assert(self@.progress =~= old(self)@.progress.insert(id, pr@));
            }
            true
        } else {
            false
        }
    }

    /// Records the vote of `id`, unless it has voted already.
    pub fn record_vote(&mut self, id: u64, vote: bool)
        ensures
            final(self)@ == (ProgressTrackerView {
                votes: if old(self)@.votes.contains_key(id) {
                    old(self)@.votes
                } else {
                    old(self)@.votes.insert(id, vote)
                },
                ..old(self)@
            }),
    {
        if !self.votes.contains_key(&id) {
            self.votes.insert(id, vote);
        }
    }
}


/// Adds a just-joined record, probing from `next_idx`, for each id of `ids`
/// to a map whose records are all such.
pub(crate) fn insert_joined(
    progress: &mut HashMap<u64, Progress>,
    ids: &Vec<u64>,
    next_idx: u64,
    max_inflight: usize,
)
    requires
        forall|id: u64| #[trigger]
            old(progress)@.contains_key(id) ==> old(progress)@[id]@ == ProgressView::joined(
                next_idx,
                max_inflight,
            ),
    ensures
        final(progress)@.dom() == old(progress)@.dom() + ids@.to_set(),
        forall|id: u64| #[trigger]
            final(progress)@.contains_key(id) ==> final(progress)@[id]@ == ProgressView::joined(
                next_idx,
                max_inflight,
            ),
{
    let ghost start = progress@.dom();
    for i in 0..ids.len()
        invariant
            progress@.dom() == start + ids@.subrange(0, i as int).to_set(),
            forall|id: u64| #[trigger]
                progress@.contains_key(id) ==> progress@[id]@ == ProgressView::joined(
                    next_idx,
                    max_inflight,
                ),
    {
        let mut pr = Progress::new(next_idx, max_inflight);
        pr.recent_active = true;
        progress.insert(ids[i], pr);
        proof {
            assert(ids@.subrange(0, i + 1) == ids@.subrange(0, i as int).push(ids@[i as int]));
            ids@.subrange(0, i as int).lemma_push_to_set_commute(ids@[i as int]);
            assert(progress@.dom() =~= start + ids@.subrange(0, i + 1).to_set());
        }
    }
    assert(ids@.subrange(0, ids@.len() as int) == ids@);
}

} // verus!
