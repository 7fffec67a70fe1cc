//! Serializable mirrors of the progress tracker and its parts, and the
//! rebuilding of a tracker from its mirror.

use crate::confchange::{restore, restore_outcome, ConfChangeError};
use crate::eraftpb::{ConfState, ConfStateView};
use crate::seq_util::{copy_ids, ids_to_set, lemma_push_contains, set_to_ids};
use crate::tracker::{
    Configuration, ConfigurationView, Inflights, InflightsView, JointConfig,
    JointConfigView, MajorityConfig, Progress, ProgressState, ProgressTracker,
    ProgressTrackerView, ProgressView,
};
use std::collections::HashMap;
use vstd::prelude::*;
use vstd::std_specs::iter::IteratorSpec;

verus! {

broadcast use vstd::std_specs::hash::group_hash_axioms;

// ---------------------------------------------------------------------------
// Progress state, in-flight window, progress
// ---------------------------------------------------------------------------

/// Serializable mirror of the replication state of a peer.
#[derive(Clone, Copy)]
pub enum SerdeProgressState {
    Probe,
    Replicate,
    Snapshot,
}

impl View for SerdeProgressState {
    type V = ProgressState;

    open spec fn view(&self) -> ProgressState {
        match self {
            SerdeProgressState::Probe => ProgressState::Probe,
            SerdeProgressState::Replicate => ProgressState::Replicate,
            SerdeProgressState::Snapshot => ProgressState::Snapshot,
        }
    }
}

impl From<ProgressState> for SerdeProgressState {
    fn from(state: ProgressState) -> (r: SerdeProgressState)
        ensures
            r@ == state,
            state == ProgressState::Probe ==> r == SerdeProgressState::Probe,
            state == ProgressState::Replicate ==> r == SerdeProgressState::Replicate,
            state == ProgressState::Snapshot ==> r == SerdeProgressState::Snapshot,
    {
        match state {
            ProgressState::Probe => SerdeProgressState::Probe,
            ProgressState::Replicate => SerdeProgressState::Replicate,
            ProgressState::Snapshot => SerdeProgressState::Snapshot,
        }
    }
}

impl vstd::std_specs::convert::FromSpecImpl<ProgressState> for SerdeProgressState {
    open spec fn obeys_from_spec() -> bool {
        false
    }

    open spec fn from_spec(v: ProgressState) -> SerdeProgressState {
        choose|r: SerdeProgressState| r@ == v
    }
}

impl From<SerdeProgressState> for ProgressState {
    fn from(state: SerdeProgressState) -> (r: ProgressState)
        ensures
            r == state@,
            state == SerdeProgressState::Probe ==> r == ProgressState::Probe,
            state == SerdeProgressState::Replicate ==> r == ProgressState::Replicate,
            state == SerdeProgressState::Snapshot ==> r == ProgressState::Snapshot,
    {
        match state {
            SerdeProgressState::Probe => ProgressState::Probe,
            SerdeProgressState::Replicate => ProgressState::Replicate,
            SerdeProgressState::Snapshot => ProgressState::Snapshot,
        }
    }
}

impl vstd::std_specs::convert::FromSpecImpl<SerdeProgressState> for ProgressState {
    open spec fn obeys_from_spec() -> bool {
        true
    }

    open spec fn from_spec(v: SerdeProgressState) -> ProgressState {
        v@
    }
}

/// Serializable mirror of a window of in-flight messages.
#[derive(Clone)]
pub struct SerdeInflights {
    pub start: usize,
    pub count: usize,
    pub cap: usize,
    pub buffer: Vec<u64>,
    pub incoming_cap: Option<usize>,
}

impl View for SerdeInflights {
    type V = InflightsView;

    open spec fn view(&self) -> InflightsView {
        InflightsView {
            start: self.start,
            count: self.count,
            cap: self.cap,
            buffer: self.buffer@,
            incoming_cap: self.incoming_cap,
        }
    }
}

impl<'a> From<&'a Inflights> for SerdeInflights {
    fn from(ins: &'a Inflights) -> (r: SerdeInflights)
        ensures
            r@ == ins@,
    {
        SerdeInflights {
            start: ins.start,
            count: ins.count,
            cap: ins.cap,
            buffer: copy_ids(&ins.buffer),
            incoming_cap: ins.incoming_cap,
        }
    }
}

impl<'a> vstd::std_specs::convert::FromSpecImpl<&'a Inflights> for SerdeInflights {
    open spec fn obeys_from_spec() -> bool {
        false
    }

    open spec fn from_spec(v: &'a Inflights) -> SerdeInflights {
        choose|r: SerdeInflights| r@ == v@
    }
}

impl From<Inflights> for SerdeInflights {
    fn from(ins: Inflights) -> (r: SerdeInflights)
        ensures
            r@ == ins@,
    {
        SerdeInflights {
            start: ins.start,
            count: ins.count,
            cap: ins.cap,
            buffer: ins.buffer,
            incoming_cap: ins.incoming_cap,
        }
    }
}

impl vstd::std_specs::convert::FromSpecImpl<Inflights> for SerdeInflights {
    open spec fn obeys_from_spec() -> bool {
        false
    }

    open spec fn from_spec(v: Inflights) -> SerdeInflights {
        choose|r: SerdeInflights| r@ == v@
    }
}

impl<'a> From<&'a SerdeInflights> for Inflights {
    fn from(sins: &'a SerdeInflights) -> (r: Inflights)
        ensures
            r@ == sins@,
    {
        Inflights {
            start: sins.start,
            count: sins.count,
            cap: sins.cap,
            buffer: copy_ids(&sins.buffer),
            incoming_cap: sins.incoming_cap,
        }
    }
}

impl<'a> vstd::std_specs::convert::FromSpecImpl<&'a SerdeInflights> for Inflights {
    open spec fn obeys_from_spec() -> bool {
        false
    }

    open spec fn from_spec(v: &'a SerdeInflights) -> Inflights {
        choose|r: Inflights| r@ == v@
    }
}

impl From<SerdeInflights> for Inflights {
    fn from(sins: SerdeInflights) -> (r: Inflights)
        ensures
            r@ == sins@,
    {
        Inflights {
            start: sins.start,
            count: sins.count,
            cap: sins.cap,
            buffer: sins.buffer,
            incoming_cap: sins.incoming_cap,
        }
    }
}

impl vstd::std_specs::convert::FromSpecImpl<SerdeInflights> for Inflights {
    open spec fn obeys_from_spec() -> bool {
        false
    }

    open spec fn from_spec(v: SerdeInflights) -> Inflights {
        choose|r: Inflights| r@ == v@
    }
}

/// Serializable mirror of the leader's record of a peer.
#[derive(Clone)]
pub struct SerdeProgress {
    pub matched: u64,
    pub next_idx: u64,
    pub state: SerdeProgressState,
    pub paused: bool,
    pub pending_snapshot: u64,
    pub pending_request_snapshot: u64,
    pub recent_active: bool,
    pub ins: SerdeInflights,
    pub commit_group_id: u64,
    pub committed_index: u64,
}

impl View for SerdeProgress {
    type V = ProgressView;

    open spec fn view(&self) -> ProgressView {
        ProgressView {
            matched: self.matched,
            next_idx: self.next_idx,
            state: self.state@,
            paused: self.paused,
            pending_snapshot: self.pending_snapshot,
            pending_request_snapshot: self.pending_request_snapshot,
            recent_active: self.recent_active,
            ins: self.ins@,
            commit_group_id: self.commit_group_id,
            committed_index: self.committed_index,
        }
    }
}

impl<'a> From<&'a Progress> for SerdeProgress {
    fn from(pr: &'a Progress) -> (r: SerdeProgress)
        ensures
            r@ == pr@,
    {
        SerdeProgress {
            matched: pr.matched,
            next_idx: pr.next_idx,
            state: SerdeProgressState::from(pr.state),
            paused: pr.paused,
            pending_snapshot: pr.pending_snapshot,
            pending_request_snapshot: pr.pending_request_snapshot,
            recent_active: pr.recent_active,
            ins: SerdeInflights::from(&pr.ins),
            commit_group_id: pr.commit_group_id,
            committed_index: pr.committed_index,
        }
    }
}

impl<'a> vstd::std_specs::convert::FromSpecImpl<&'a Progress> for SerdeProgress {
    open spec fn obeys_from_spec() -> bool {
        false
    }

    open spec fn from_spec(v: &'a Progress) -> SerdeProgress {
        choose|r: SerdeProgress| r@ == v@
    }
}

impl From<Progress> for SerdeProgress {
    fn from(pr: Progress) -> (r: SerdeProgress)
        ensures
            r@ == pr@,
    {
        SerdeProgress {
            matched: pr.matched,
            next_idx: pr.next_idx,
            state: SerdeProgressState::from(pr.state),
            paused: pr.paused,
            pending_snapshot: pr.pending_snapshot,
            pending_request_snapshot: pr.pending_request_snapshot,
            recent_active: pr.recent_active,
            ins: SerdeInflights::from(pr.ins),
            commit_group_id: pr.commit_group_id,
            committed_index: pr.committed_index,
        }
    }
}

impl vstd::std_specs::convert::FromSpecImpl<Progress> for SerdeProgress {
    open spec fn obeys_from_spec() -> bool {
        false
    }

    open spec fn from_spec(v: Progress) -> SerdeProgress {
        choose|r: SerdeProgress| r@ == v@
    }
}

impl<'a> From<&'a SerdeProgress> for Progress {
    fn from(spr: &'a SerdeProgress) -> (r: Progress)
        ensures
            r@ == spr@,
    {
        Progress {
            matched: spr.matched,
            next_idx: spr.next_idx,
            state: ProgressState::from(spr.state),
            paused: spr.paused,
            pending_snapshot: spr.pending_snapshot,
            pending_request_snapshot: spr.pending_request_snapshot,
            recent_active: spr.recent_active,
            ins: Inflights::from(&spr.ins),
            commit_group_id: spr.commit_group_id,
            committed_index: spr.committed_index,
        }
    }
}

impl<'a> vstd::std_specs::convert::FromSpecImpl<&'a SerdeProgress> for Progress {
    open spec fn obeys_from_spec() -> bool {
        false
    }

    open spec fn from_spec(v: &'a SerdeProgress) -> Progress {
        choose|r: Progress| r@ == v@
    }
}

impl From<SerdeProgress> for Progress {
    fn from(spr: SerdeProgress) -> (r: Progress)
        ensures
            r@ == spr@,
    {
        Progress {
            matched: spr.matched,
            next_idx: spr.next_idx,
            state: ProgressState::from(spr.state),
            paused: spr.paused,
            pending_snapshot: spr.pending_snapshot,
            pending_request_snapshot: spr.pending_request_snapshot,
            recent_active: spr.recent_active,
            ins: Inflights::from(spr.ins),
            commit_group_id: spr.commit_group_id,
            committed_index: spr.committed_index,
        }
    }
}

impl vstd::std_specs::convert::FromSpecImpl<SerdeProgress> for Progress {
    open spec fn obeys_from_spec() -> bool {
        false
    }

    open spec fn from_spec(v: SerdeProgress) -> Progress {
        choose|r: Progress| r@ == v@
    }
}

// ---------------------------------------------------------------------------
// Joint configuration, configuration
// ---------------------------------------------------------------------------

/// What the mirror of a joint configuration holds.
pub struct SerdeJointConfigView {
    pub incoming: Seq<u64>,
    pub outgoing: Seq<u64>,
}

impl SerdeJointConfigView {
    /// This mirror lists each voter of `jc` once, on its side.
    pub open spec fn mirrors(self, jc: JointConfigView) -> bool {
        &&& self.incoming.no_duplicates()
        &&& self.outgoing.no_duplicates()
        &&& self.incoming.to_set() == jc.incoming
        &&& self.outgoing.to_set() == jc.outgoing
    }

    /// The joint configuration that this mirror reads back as.
    pub open spec fn restored(self) -> JointConfigView {
        JointConfigView { incoming: self.incoming.to_set(), outgoing: self.outgoing.to_set() }
    }
}

/// Serializable mirror of a joint configuration.
#[derive(Clone)]
pub struct SerdeJointConfig {
    pub incoming: Vec<u64>,
    pub outgoing: Vec<u64>,
}

impl View for SerdeJointConfig {
    type V = SerdeJointConfigView;

    open spec fn view(&self) -> SerdeJointConfigView {
        SerdeJointConfigView { incoming: self.incoming@, outgoing: self.outgoing@ }
    }
}

impl<'a> From<&'a JointConfig> for SerdeJointConfig {
    fn from(jc: &'a JointConfig) -> (r: SerdeJointConfig)
        ensures
            r@.mirrors(jc@),
    {
        SerdeJointConfig {
            incoming: set_to_ids(&jc.incoming.voters),
            outgoing: set_to_ids(&jc.outgoing.voters),
        }
    }
}

impl<'a> vstd::std_specs::convert::FromSpecImpl<&'a JointConfig> for SerdeJointConfig {
    open spec fn obeys_from_spec() -> bool {
        false
    }

    open spec fn from_spec(v: &'a JointConfig) -> SerdeJointConfig {
        choose|r: SerdeJointConfig| r@.mirrors(v@)
    }
}

impl From<JointConfig> for SerdeJointConfig {
    fn from(jc: JointConfig) -> (r: SerdeJointConfig)
        ensures
            r@.mirrors(jc@),
    {
        SerdeJointConfig::from(&jc)
    }
}

impl vstd::std_specs::convert::FromSpecImpl<JointConfig> for SerdeJointConfig {
    open spec fn obeys_from_spec() -> bool {
        false
    }

    open spec fn from_spec(v: JointConfig) -> SerdeJointConfig {
        choose|r: SerdeJointConfig| r@.mirrors(v@)
    }
}

impl From<SerdeJointConfig> for JointConfig {
    fn from(sjc: SerdeJointConfig) -> (r: JointConfig)
        ensures
            r@ == sjc@.restored(),
    {
        let incoming = MajorityConfig::new(ids_to_set(&sjc.incoming));
        let outgoing = MajorityConfig::new(ids_to_set(&sjc.outgoing));
        JointConfig { incoming, outgoing }
    }
}

impl vstd::std_specs::convert::FromSpecImpl<SerdeJointConfig> for JointConfig {
    open spec fn obeys_from_spec() -> bool {
        false
    }

    open spec fn from_spec(v: SerdeJointConfig) -> JointConfig {
        choose|r: JointConfig| r@ == v@.restored()
    }
}

/// What the mirror of a configuration holds.
pub struct SerdeConfigurationView {
    pub voters: SerdeJointConfigView,
    pub learners: Seq<u64>,
    pub learners_next: Seq<u64>,
    pub auto_leave: bool,
}

impl SerdeConfigurationView {
    /// This mirror lists each member of `conf` once, in its place.
    pub open spec fn mirrors(self, conf: ConfigurationView) -> bool {
        &&& self.voters.mirrors(conf.voters)
        &&& self.learners.no_duplicates()
        &&& self.learners_next.no_duplicates()
        &&& self.learners.to_set() == conf.learners
        &&& self.learners_next.to_set() == conf.learners_next
        &&& self.auto_leave == conf.auto_leave
    }

    /// The configuration that this mirror reads back as.
    pub open spec fn restored(self) -> ConfigurationView {
        ConfigurationView {
            voters: self.voters.restored(),
            learners: self.learners.to_set(),
            learners_next: self.learners_next.to_set(),
            auto_leave: self.auto_leave,
        }
    }
}

/// Serializable mirror of a configuration.
#[derive(Clone)]
pub struct SerdeConfiguration {
    pub voters: SerdeJointConfig,
    pub learners: Vec<u64>,
    pub learners_next: Vec<u64>,
    pub auto_leave: bool,
}

impl View for SerdeConfiguration {
    type V = SerdeConfigurationView;

    open spec fn view(&self) -> SerdeConfigurationView {
        SerdeConfigurationView {
            voters: self.voters@,
            learners: self.learners@,
            learners_next: self.learners_next@,
            auto_leave: self.auto_leave,
        }
    }
}

impl<'a> From<&'a Configuration> for SerdeConfiguration {
    fn from(conf: &'a Configuration) -> (r: SerdeConfiguration)
        ensures
            r@.mirrors(conf@),
    {
        SerdeConfiguration {
            voters: SerdeJointConfig::from(&conf.voters),
            learners: set_to_ids(&conf.learners),
            learners_next: set_to_ids(&conf.learners_next),
            auto_leave: conf.auto_leave,
        }
    }
}

impl<'a> vstd::std_specs::convert::FromSpecImpl<&'a Configuration> for SerdeConfiguration {
    open spec fn obeys_from_spec() -> bool {
        false
    }

    open spec fn from_spec(v: &'a Configuration) -> SerdeConfiguration {
        choose|r: SerdeConfiguration| r@.mirrors(v@)
    }
}

impl From<Configuration> for SerdeConfiguration {
    fn from(conf: Configuration) -> (r: SerdeConfiguration)
        ensures
            r@.mirrors(conf@),
    {
        SerdeConfiguration::from(&conf)
    }
}

impl vstd::std_specs::convert::FromSpecImpl<Configuration> for SerdeConfiguration {
    open spec fn obeys_from_spec() -> bool {
        false
    }

    open spec fn from_spec(v: Configuration) -> SerdeConfiguration {
        choose|r: SerdeConfiguration| r@.mirrors(v@)
    }
}

impl From<SerdeConfiguration> for Configuration {
    fn from(sconf: SerdeConfiguration) -> (r: Configuration)
        ensures
            r@ == sconf@.restored(),
    {
        let voters = JointConfig::from(sconf.voters);
        Configuration {
            voters,
            learners: ids_to_set(&sconf.learners),
            learners_next: ids_to_set(&sconf.learners_next),
            auto_leave: sconf.auto_leave,
        }
    }
}

impl vstd::std_specs::convert::FromSpecImpl<SerdeConfiguration> for Configuration {
    open spec fn obeys_from_spec() -> bool {
        false
    }

    open spec fn from_spec(v: SerdeConfiguration) -> Configuration {
        choose|r: Configuration| r@ == v@.restored()
    }
}


// ---------------------------------------------------------------------------
// Progress tracker
// ---------------------------------------------------------------------------

/// Whether `v` is the greatest next index among the records of a map.
pub open spec fn is_highest_next_idx(m: Map<u64, ProgressView>, v: u64) -> bool {
    &&& exists|id: u64| #[trigger] m.contains_key(id) && m[id].next_idx == v
    &&& forall|id: u64| #[trigger] m.contains_key(id) ==> m[id].next_idx <= v
}

/// The greatest next index among the records of a map, or one when the map
/// has no record.
pub open spec fn highest_next_idx(m: Map<u64, ProgressView>) -> u64 {
    if m.dom().is_empty() {
        1
    } else {
        choose|v: u64| is_highest_next_idx(m, v)
    }
}

/// What the mirror of a progress tracker holds.
pub struct SerdeProgressTrackerView {
    pub progress: Map<u64, ProgressView>,
    pub conf: SerdeConfigurationView,
    pub votes: Map<u64, bool>,
    pub max_inflight: usize,
    pub group_commit: bool,
}

impl SerdeProgressTrackerView {
    /// This mirror holds the tracker `t`.
    pub open spec fn mirrors(self, t: ProgressTrackerView) -> bool {
        &&& self.progress == t.progress
        &&& self.conf.mirrors(t.conf)
        &&& self.votes == t.votes
        &&& self.max_inflight == t.max_inflight
        &&& self.group_commit == t.group_commit
    }

    /// The configuration state that the mirrored configuration spells out.
    pub open spec fn conf_state(self) -> ConfStateView {
        ConfStateView {
            voters: self.conf.voters.incoming,
            learners: self.conf.learners,
            voters_outgoing: self.conf.voters.outgoing,
            learners_next: self.conf.learners_next,
            auto_leave: self.conf.auto_leave,
        }
    }

    /// The tracker that this mirror is rebuilt as. The mirrored
    /// configuration is rebuilt from nothing one change at a time (see
    /// [`restore_outcome`]), up to the first step that would leave no incoming
    /// voter; each member of the result gets its mirrored record, or else the
    /// record of a peer that has just joined and probes from the greatest
    /// mirrored next index. The votes, the window capacity and the group
    /// commit setting are those of the mirror.
    pub open spec fn restored(self) -> ProgressTrackerView {
        let st = restore_outcome(self.conf_state()).0;
        let joined = ProgressView::joined(highest_next_idx(self.progress), self.max_inflight);
        ProgressTrackerView {
            progress: Map::new(
                |id: u64| st.ids.contains(id),
                |id: u64|
                    if self.progress.contains_key(id) {
                        self.progress[id]
                    } else {
                        joined
                    },
            ),
            conf: st.conf,
            votes: self.votes,
            max_inflight: self.max_inflight,
            group_commit: self.group_commit,
        }
    }
}

/// Serializable mirror of a progress tracker.
#[derive(Clone)]
pub struct SerdeProgressTracker {
    pub progress: HashMap<u64, SerdeProgress>,
    pub conf: SerdeConfiguration,
    pub votes: HashMap<u64, bool>,
    pub max_inflight: usize,
    pub group_commit: bool,
}

impl View for SerdeProgressTracker {
    type V = SerdeProgressTrackerView;

    open spec fn view(&self) -> SerdeProgressTrackerView {
        SerdeProgressTrackerView {
            progress: self.progress@.map_values(|p: SerdeProgress| p@),
            conf: self.conf@,
            votes: self.votes@,
            max_inflight: self.max_inflight,
            group_commit: self.group_commit,
        }
    }
}

/// The mirrors of the records of a map, under the same ids.
fn serde_progress_map(progress: &HashMap<u64, Progress>) -> (r: HashMap<u64, SerdeProgress>)
    ensures
        r@.map_values(|p: SerdeProgress| p@) == progress@.map_values(|p: Progress| p@),
{
    let ghost pairs = vstd::std_specs::hash::spec_hash_map_iter(progress).remaining();
    let mut out: HashMap<u64, SerdeProgress> = HashMap::new();
    for kv in it: progress.iter()
        invariant
            it.seq() == pairs,
            pairs.len() == progress@.dom().len(),
            forall|i: int|
                0 <= i < pairs.len() ==> progress@.contains_key(*(#[trigger] pairs[i]).0)
                    && progress@[*pairs[i].0] == *pairs[i].1,
            forall|k: u64| #[trigger]
                progress@.contains_key(k) ==> pairs.contains((&k, &progress@[k])),
            out@.dom() == pairs.take(it.index()).map_values(|p: (&u64, &Progress)| *p.0).to_set(),
            forall|k: u64| #[trigger] out@.contains_key(k) ==> out@[k]@ == progress@[k]@,
    {
        let ghost i: int = it.index();
        let (k, pr) = kv;
        out.insert(*k, SerdeProgress::from(pr));
        proof {
            let f = |p: (&u64, &Progress)| *p.0;
            assert(pairs.take(i + 1).map_values(f) =~= pairs.take(i).map_values(f).push(*k));
            pairs.take(i).map_values(f).lemma_push_to_set_commute(*k);
        }
    }
    proof {
        let f = |p: (&u64, &Progress)| *p.0;
        assert(pairs.take(pairs.len() as int) =~= pairs);
        assert forall|k: u64| progress@.contains_key(k) implies out@.contains_key(k) by {
            let j: int = choose|j: int| 0 <= j < pairs.len() && pairs[j] == (&k, &progress@[k]);
            assert(pairs.map_values(f)[j] == k);
        }
        assert(out@.map_values(|p: SerdeProgress| p@) =~= progress@.map_values(|p: Progress| p@));
    }
    out
}

/// A copy of a map of votes.
fn copy_votes(votes: &HashMap<u64, bool>) -> (r: HashMap<u64, bool>)
    ensures
        r@ == votes@,
{
    let ghost pairs = vstd::std_specs::hash::spec_hash_map_iter(votes).remaining();
    let mut out: HashMap<u64, bool> = HashMap::new();
    for kv in it: votes.iter()
        invariant
            it.seq() == pairs,
            pairs.len() == votes@.dom().len(),
            forall|i: int|
                0 <= i < pairs.len() ==> votes@.contains_key(*(#[trigger] pairs[i]).0)
                    && votes@[*pairs[i].0] == *pairs[i].1,
            forall|k: u64| #[trigger] votes@.contains_key(k) ==> pairs.contains((&k, &votes@[k])),
            out@.dom() == pairs.take(it.index()).map_values(|p: (&u64, &bool)| *p.0).to_set(),
            forall|k: u64| #[trigger] out@.contains_key(k) ==> out@[k] == votes@[k],
    {
        let ghost i: int = it.index();
        let (k, v) = kv;
        out.insert(*k, *v);
        proof {
            let f = |p: (&u64, &bool)| *p.0;
            assert(pairs.take(i + 1).map_values(f) =~= pairs.take(i).map_values(f).push(*k));
            pairs.take(i).map_values(f).lemma_push_to_set_commute(*k);
        }
    }
    proof {
        let f = |p: (&u64, &bool)| *p.0;
        assert(pairs.take(pairs.len() as int) =~= pairs);
        assert forall|k: u64| votes@.contains_key(k) implies out@.contains_key(k) by {
            let j: int = choose|j: int| 0 <= j < pairs.len() && pairs[j] == (&k, &votes@[k]);
            assert(pairs.map_values(f)[j] == k);
        }
        assert(out@ =~= votes@);
    }
    out
}

impl<'a> From<&'a ProgressTracker> for SerdeProgressTracker {
    fn from(tracker: &'a ProgressTracker) -> (r: SerdeProgressTracker)
        ensures
            r@.mirrors(tracker@),
    {
        let progress = serde_progress_map(tracker.progress());
        let conf = SerdeConfiguration::from(tracker.conf());
        let votes = copy_votes(tracker.votes());
        let max_inflight: usize = tracker.max_inflight();
        let group_commit = tracker.group_commit();
        SerdeProgressTracker { progress, conf, votes, max_inflight, group_commit }
    }
}

impl<'a> vstd::std_specs::convert::FromSpecImpl<&'a ProgressTracker> for SerdeProgressTracker {
    open spec fn obeys_from_spec() -> bool {
        false
    }

    open spec fn from_spec(v: &'a ProgressTracker) -> SerdeProgressTracker {
        choose|r: SerdeProgressTracker| r@.mirrors(v@)
    }
}

impl From<ProgressTracker> for SerdeProgressTracker {
    fn from(tracker: ProgressTracker) -> (r: SerdeProgressTracker)
        ensures
            r@.mirrors(tracker@),
    {
        SerdeProgressTracker::from(&tracker)
    }
}

impl vstd::std_specs::convert::FromSpecImpl<ProgressTracker> for SerdeProgressTracker {
    open spec fn obeys_from_spec() -> bool {
        false
    }

    open spec fn from_spec(v: ProgressTracker) -> SerdeProgressTracker {
        choose|r: SerdeProgressTracker| r@.mirrors(v@)
    }
}

/// The greatest next index among the records of a map, or one when the map
/// has no record.
fn highest_next_idx_of(progress: &HashMap<u64, SerdeProgress>) -> (r: u64)
    ensures
        r == highest_next_idx(progress@.map_values(|p: SerdeProgress| p@)),
{
    let ghost m = progress@.map_values(|p: SerdeProgress| p@);
    let ghost pairs = vstd::std_specs::hash::spec_hash_map_iter(progress).remaining();
    let mut best: Option<u64> = None;
    for kv in it: progress.iter()
        invariant
            it.seq() == pairs,
            pairs.len() == progress@.dom().len(),
            forall|i: int|
                0 <= i < pairs.len() ==> progress@.contains_key(*(#[trigger] pairs[i]).0)
                    && progress@[*pairs[i].0] == *pairs[i].1,
            forall|k: u64| #[trigger]
                progress@.contains_key(k) ==> pairs.contains((&k, &progress@[k])),
            best is None <==> it.index() == 0,
            best matches Some(b) ==> {
                &&& exists|j: int| 0 <= j < it.index() && (#[trigger] pairs[j]).1.next_idx == b
                &&& forall|j: int| 0 <= j < it.index() ==> (#[trigger] pairs[j]).1.next_idx <= b
            },
    {
        let (_k, p) = kv;
        best = match best {
            Some(b) => if p.next_idx > b {
                Some(p.next_idx)
            } else {
                Some(b)
            },
            None => Some(p.next_idx),
        };
    }
    match best {
        Some(b) => {
            proof {
                let j: int = choose|j: int| 0 <= j < pairs.len() && (#[trigger] pairs[j]).1.next_idx == b;
                let w: u64 = *pairs[j].0;
                assert(m.contains_key(w) && m[w].next_idx == b);
                assert(!m.dom().is_empty());
                assert forall|id: u64| #[trigger] m.contains_key(id) implies m[id].next_idx <= b by {
                    assert(pairs.contains((&id, &progress@[id])));
                    let c: int = choose|c: int| 0 <= c < pairs.len() && pairs[c] == (&id, &progress@[id]);
                    assert(pairs[c].1.next_idx <= b);
                }
                assert(is_highest_next_idx(m, b));
                let v: u64 = choose|v: u64| is_highest_next_idx(m, v);
                assert(v <= b && b <= v);
            }
            b
        },
        None => {
            proof {
                assert(m.dom() =~= Set::empty()) by {
                    assert forall|id: u64| !m.contains_key(id) by {
                        if m.contains_key(id) {
                            assert(pairs.contains((&id, &progress@[id])));
                        }
                    }
                }
            }
            1
        },
    }
}

impl SerdeProgressTracker {
    /// Rebuilds the tracker that this mirror holds, and tells whether every
    /// step of rebuilding its configuration succeeded; see
    /// [`SerdeProgressTrackerView::restored`]. The member counts must fit in a
    /// `usize` together.
    pub fn into_tracker_checked(self) -> (r: (ProgressTracker, Result<(), ConfChangeError>))
        requires
            self.conf.voters.incoming@.len() + self.conf.voters.outgoing@.len()
                + self.conf.learners@.len() <= usize::MAX,
        ensures
            r.0@ == self@.restored(),
            r.1 is Ok <==> restore_outcome(self@.conf_state()).1,
    {
        let ghost sv = self@;
        let voters_count: usize = self.conf.voters.incoming.len() + self.conf.voters.outgoing.len();
        let learners_count: usize = self.conf.learners.len();
        let mut tracker = ProgressTracker::with_capacity(
            voters_count,
            learners_count,
            self.max_inflight,
        );
        tracker.enable_group_commit(self.group_commit);
        let mut conf_state = ConfState::new();
        conf_state.voters = copy_ids(&self.conf.voters.incoming);
        conf_state.voters_outgoing = copy_ids(&self.conf.voters.outgoing);
        conf_state.learners = copy_ids(&self.conf.learners);
        conf_state.learners_next = copy_ids(&self.conf.learners_next);
        conf_state.auto_leave = self.conf.auto_leave;
        assert(conf_state@ == sv.conf_state());
        let next_idx: u64 = highest_next_idx_of(&self.progress);
        let status = restore(&mut tracker, next_idx, &conf_state);
        let ghost base = tracker@;
        let ghost pairs = vstd::std_specs::hash::spec_hash_map_iter(&self.progress).remaining();
        let ghost smap = sv.progress;
        proof {
            let f = |p: (&u64, &SerdeProgress)| *p.0;
            assert(pairs.take(0).map_values(f) =~= Seq::<u64>::empty());
            assert(base.progress =~= Map::new(
                |id: u64| base.progress.contains_key(id),
                |id: u64|
                    if pairs.take(0).map_values(f).contains(id) {
                        smap[id]
                    } else {
                        base.progress[id]
                    },
            ));
        }
        for kv in it: self.progress.iter()
            invariant
                it.seq() == pairs,
                pairs.len() == self.progress@.dom().len(),
                forall|i: int|
                    0 <= i < pairs.len() ==> self.progress@.contains_key(*(#[trigger] pairs[i]).0)
                        && self.progress@[*pairs[i].0] == *pairs[i].1,
                forall|k: u64| #[trigger]
                    self.progress@.contains_key(k) ==> pairs.contains((&k, &self.progress@[k])),
                smap == self.progress@.map_values(|p: SerdeProgress| p@),
                tracker@ == (ProgressTrackerView {
                    progress: Map::new(
                        |id: u64| base.progress.contains_key(id),
                        |id: u64|
                            if pairs.take(it.index()).map_values(
                                |p: (&u64, &SerdeProgress)| *p.0,
                            ).contains(id) {
                                smap[id]
                            } else {
                                base.progress[id]
                            },
                    ),
                    ..base
                }),
        {
            let ghost i: int = it.index();
            let ghost before = tracker@;
            let (id, sp) = kv;
            tracker.update_progress(*id, Progress::from(sp));
            proof {
                let f = |p: (&u64, &SerdeProgress)| *p.0;
                assert(pairs.take(i + 1).map_values(f) =~= pairs.take(i).map_values(f).push(*id));
                assert forall|k: u64|
                    pairs.take(i + 1).map_values(f).contains(k) <==> (pairs.take(i).map_values(
                        f,
                    ).contains(k) || k == *id) by {
                    lemma_push_contains(pairs.take(i).map_values(f), *id, k);
                }
                assert(smap[*id] == sp@);
                let target = Map::new(
                    |k: u64| base.progress.contains_key(k),
                    |k: u64|
                        if pairs.take(i + 1).map_values(f).contains(k) {
                            smap[k]
                        } else {
                            base.progress[k]
                        },
                );
                assert(before.progress.dom() == base.progress.dom());
                if base.progress.contains_key(*id) {
                    assert(tracker@.progress == before.progress.insert(*id, sp@));
                } else {
                    assert(tracker@.progress == before.progress);
                }
                assert forall|k: u64| #[trigger] target.contains_key(k) implies tracker@.progress.contains_key(k) && tracker@.progress[k] == target[k] by {
                    if k != *id {
                        assert(pairs.take(i + 1).map_values(f).contains(k) == pairs.take(i).map_values(f).contains(k));
                        assert(before.progress.contains_key(k));
                        assert(tracker@.progress[k] == before.progress[k]);
                    } else {
                        assert(base.progress.contains_key(k));
                        lemma_push_contains(pairs.take(i).map_values(f), *id, k);
                        assert(pairs.take(i + 1).map_values(f).contains(k));
                        assert(target[k] == smap[k]);
                        assert(tracker@.progress[k] == sp@);
                    }
                }
                assert(tracker@.progress.dom() =~= target.dom());
                assert(tracker@.progress =~= target);
            }
        }
        proof {
            let f = |p: (&u64, &SerdeProgress)| *p.0;
            assert(pairs.take(pairs.len() as int) =~= pairs);
            assert forall|k: u64| pairs.map_values(f).contains(k) <==> smap.contains_key(k) by {
                if smap.contains_key(k) {
                    let j: int = choose|j: int|
                        0 <= j < pairs.len() && pairs[j] == (&k, &self.progress@[k]);
                    assert(pairs.map_values(f)[j] == k);
                }
                if pairs.map_values(f).contains(k) {
                    let j: int = choose|j: int| 0 <= j < pairs.len() && pairs.map_values(f)[j] == k;
                    assert(self.progress@.contains_key(*pairs[j].0));
                }
            }
            assert(tracker@.progress =~= sv.restored().progress);
        }
        let ghost after_progress = tracker@;
        let ghost vpairs = vstd::std_specs::hash::spec_hash_map_iter(&self.votes).remaining();
        proof {
            let f = |p: (&u64, &bool)| *p.0;
            assert(vpairs.take(0).map_values(f) =~= Seq::<u64>::empty());
            assert(after_progress.votes =~= Map::new(
                |k: u64| vpairs.take(0).map_values(f).contains(k),
                |k: u64| self.votes@[k],
            ));
        }
        for kv in it: self.votes.iter()
            invariant
                it.seq() == vpairs,
                vpairs.no_duplicates(),
                vpairs.len() == self.votes@.dom().len(),
                forall|i: int|
                    0 <= i < vpairs.len() ==> self.votes@.contains_key(*(#[trigger] vpairs[i]).0)
                        && self.votes@[*vpairs[i].0] == *vpairs[i].1,
                forall|k: u64| #[trigger]
                    self.votes@.contains_key(k) ==> vpairs.contains((&k, &self.votes@[k])),
                tracker@ == (ProgressTrackerView {
                    votes: Map::new(
                        |k: u64|
                            vpairs.take(it.index()).map_values(|p: (&u64, &bool)| *p.0).contains(
                                k,
                            ),
                        |k: u64| self.votes@[k],
                    ),
                    ..after_progress
                }),
        {
            let ghost i: int = it.index();
            let (id, vote) = kv;
            tracker.record_vote(*id, *vote);
            proof {
                let f = |p: (&u64, &bool)| *p.0;
                if vpairs.take(i).map_values(f).contains(*id) {
                    let j: int = choose|j: int| 0 <= j < i && vpairs.take(i).map_values(f)[j] == *id;
                    assert(vpairs[j].0 == vpairs[i].0);
                    assert(vpairs[j] == vpairs[i]);
                }
                assert(vpairs.take(i + 1).map_values(f) =~= vpairs.take(i).map_values(f).push(*id));
                assert forall|k: u64|
                    vpairs.take(i + 1).map_values(f).contains(k) <==> (vpairs.take(i).map_values(
                        f,
                    ).contains(k) || k == *id) by {
                    lemma_push_contains(vpairs.take(i).map_values(f), *id, k);
                }
                let target = Map::new(
                    |k: u64| vpairs.take(i + 1).map_values(f).contains(k),
                    |k: u64| self.votes@[k],
                );
                assert(tracker@.votes =~= target);
            }
        }
        proof {
            let f = |p: (&u64, &bool)| *p.0;
            assert(vpairs.take(vpairs.len() as int) =~= vpairs);
            assert forall|k: u64| vpairs.map_values(f).contains(k) <==> self.votes@.contains_key(k) by {
                if self.votes@.contains_key(k) {
                    let j: int = choose|j: int| 0 <= j < vpairs.len() && vpairs[j] == (&k, &self.votes@[k]);
                    assert(vpairs.map_values(f)[j] == k);
                }
            }
            assert(tracker@.votes =~= sv.votes);
            assert(tracker@ == sv.restored());
        }
        (tracker, status)
    }

    /// Rebuilds the tracker that this mirror holds; see
    /// [`SerdeProgressTrackerView::restored`]. When a step of rebuilding the
    /// configuration fails, the tracker keeps what the steps before it made.
    pub fn into_tracker(self) -> (r: ProgressTracker)
        requires
            self.conf.voters.incoming@.len() + self.conf.voters.outgoing@.len()
                + self.conf.learners@.len() <= usize::MAX,
        ensures
            r@ == self@.restored(),
    {
        self.into_tracker_checked().0
    }
}

} // verus!
