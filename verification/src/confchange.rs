//! Rebuilding a group configuration from a configuration state, one change at
//! a time: first the outgoing voters are added one by one, then (when there
//! are outgoing voters) the joint configuration is entered with the changes
//! that turn them into the incoming voters and learners. [`restore`] does so
//! in an empty progress tracker.

use crate::eraftpb::{ConfState, ConfStateView};
use crate::seq_util::{ids_to_set, set_to_ids};
use crate::tracker::{
    insert_joined, Configuration, ConfigurationView, JointConfig, JointConfigView, MajorityConfig,
    ProgressTracker, ProgressTrackerView, ProgressView,
};
use std::collections::HashSet;
use vstd::prelude::*;

verus! {

broadcast use vstd::std_specs::hash::group_hash_axioms;

/// The kind of a single membership change.
#[derive(Clone, Copy, Debug, PartialEq, Eq, Structural)]
pub enum ChangeKind {
    AddNode,
    AddLearnerNode,
    RemoveNode,
}

/// A configuration being built, and the ids that have a progress record.
pub struct StagedView {
    pub conf: ConfigurationView,
    pub ids: Set<u64>,
}

impl StagedView {
    /// Nothing staged yet.
    pub open spec fn empty() -> StagedView {
        StagedView { conf: ConfigurationView::empty(), ids: Set::empty() }
    }

    /// The incoming voters of the staged configuration.
    pub open spec fn incoming(self) -> Set<u64> {
        self.conf.voters.incoming
    }
}

/// One change applied to a staged configuration. A change of id zero is
/// ignored. Adding a voter makes it an incoming voter and no learner; adding
/// a learner that has no record gives it one, a peer that has a record and is
/// no learner yet stops being a voter and, keeping its record, becomes a
/// learner, or waits to become one while it is an outgoing voter; removing a
/// peer drops it from the incoming voters and the learners, and drops its
/// record unless it is an outgoing voter.
pub open spec fn apply_change(s: StagedView, c: (u64, ChangeKind)) -> StagedView {
    let id = c.0;
    let conf = s.conf;
    let incoming = conf.voters.incoming;
    let outgoing = conf.voters.outgoing;
    if id == 0 {
        s
    } else {
        match c.1 {
            ChangeKind::AddNode => if !s.ids.contains(id) {
                StagedView {
                    conf: ConfigurationView {
                        voters: JointConfigView { incoming: incoming.insert(id), outgoing },
                        ..conf
                    },
                    ids: s.ids.insert(id),
                }
            } else {
                StagedView {
                    conf: ConfigurationView {
                        voters: JointConfigView { incoming: incoming.insert(id), outgoing },
                        learners: conf.learners.remove(id),
                        learners_next: conf.learners_next.remove(id),
                        auto_leave: conf.auto_leave,
                    },
                    ids: s.ids,
                }
            },
            ChangeKind::AddLearnerNode => if !s.ids.contains(id) {
                StagedView {
                    conf: ConfigurationView { learners: conf.learners.insert(id), ..conf },
                    ids: s.ids.insert(id),
                }
            } else if conf.learners.contains(id) {
                s
            } else if outgoing.contains(id) {
                StagedView {
                    conf: ConfigurationView {
                        voters: JointConfigView { incoming: incoming.remove(id), outgoing },
                        learners: conf.learners.remove(id),
                        learners_next: conf.learners_next.remove(id).insert(id),
                        auto_leave: conf.auto_leave,
                    },
                    ids: s.ids,
                }
            } else {
                StagedView {
                    conf: ConfigurationView {
                        voters: JointConfigView { incoming: incoming.remove(id), outgoing },
                        learners: conf.learners.remove(id).insert(id),
                        learners_next: conf.learners_next.remove(id),
                        auto_leave: conf.auto_leave,
                    },
                    ids: s.ids,
                }
            },
            ChangeKind::RemoveNode => if !s.ids.contains(id) {
                s
            } else {
                StagedView {
                    conf: ConfigurationView {
                        voters: JointConfigView { incoming: incoming.remove(id), outgoing },
                        learners: conf.learners.remove(id),
                        learners_next: conf.learners_next.remove(id),
                        auto_leave: conf.auto_leave,
                    },
                    ids: if outgoing.contains(id) {
                        s.ids
                    } else {
                        s.ids.remove(id)
                    },
                }
            },
        }
    }
}

/// Changes applied one after another.
pub open spec fn apply_changes(s: StagedView, cs: Seq<(u64, ChangeKind)>) -> StagedView
    decreases cs.len(),
{
    if cs.len() == 0 {
        s
    } else {
        apply_change(apply_changes(s, cs.drop_last()), cs.last())
    }
}

/// Changes applied one at a time, each on its own: a change that would leave
/// no incoming voter is refused, and stops the run, which keeps what the
/// earlier changes made. The flag tells whether every change was applied.
pub open spec fn run_simple(s: StagedView, cs: Seq<(u64, ChangeKind)>) -> (StagedView, bool)
    decreases cs.len(),
{
    if cs.len() == 0 {
        (s, true)
    } else {
        let prev = run_simple(s, cs.drop_last());
        if !prev.1 {
            prev
        } else {
            let next = apply_change(prev.0, cs.last());
            if next.incoming().is_empty() {
                (prev.0, false)
            } else {
                (next, true)
            }
        }
    }
}

/// Entering the joint configuration: the incoming voters become the
/// outgoing ones too, then the changes apply together. Without incoming
/// voters before, or after the changes, nothing changes and the flag is off.
pub open spec fn enter_joint(s: StagedView, auto_leave: bool, cs: Seq<(u64, ChangeKind)>) -> (
    StagedView,
    bool,
) {
    if s.incoming().is_empty() {
        (s, false)
    } else {
        let joint = StagedView {
            conf: ConfigurationView {
                voters: JointConfigView {
                    incoming: s.conf.voters.incoming,
                    outgoing: s.conf.voters.outgoing + s.conf.voters.incoming,
                },
                ..s.conf
            },
            ids: s.ids,
        };
        let next = apply_changes(joint, cs);
        if next.incoming().is_empty() {
            (s, false)
        } else {
            (StagedView { conf: ConfigurationView { auto_leave, ..next.conf }, ids: next.ids }, true)
        }
    }
}

/// The same change for each id of a list.
pub open spec fn changes_of(ids: Seq<u64>, kind: ChangeKind) -> Seq<(u64, ChangeKind)> {
    ids.map_values(|id: u64| (id, kind))
}

/// The changes that build the outgoing voters of a configuration state.
pub open spec fn outgoing_changes(cs: ConfStateView) -> Seq<(u64, ChangeKind)> {
    changes_of(cs.voters_outgoing, ChangeKind::AddNode)
}

/// The changes that turn the outgoing voters into the incoming voters and
/// learners of a configuration state.
pub open spec fn incoming_changes(cs: ConfStateView) -> Seq<(u64, ChangeKind)> {
    changes_of(cs.voters_outgoing, ChangeKind::RemoveNode) + changes_of(
        cs.voters,
        ChangeKind::AddNode,
    ) + changes_of(cs.learners, ChangeKind::AddLearnerNode) + changes_of(
        cs.learners_next,
        ChangeKind::AddLearnerNode,
    )
}

/// What rebuilding the configuration of a configuration state from nothing
/// gives, and whether every step succeeded. Without outgoing voters the
/// incoming changes apply one at a time; with them, the outgoing voters are
/// added one at a time and the joint configuration is then entered.
pub open spec fn restore_outcome(cs: ConfStateView) -> (StagedView, bool) {
    if cs.voters_outgoing.len() == 0 {
        run_simple(StagedView::empty(), incoming_changes(cs))
    } else {
        let first = run_simple(StagedView::empty(), outgoing_changes(cs));
        if !first.1 {
            first
        } else {
            enter_joint(first.0, cs.auto_leave, incoming_changes(cs))
        }
    }
}

// ---------------------------------------------------------------------------
// What every step keeps
// ---------------------------------------------------------------------------

/// What every step of a rebuild keeps: a learner is no voter; a learner that
/// waits for the joint configuration to end is an outgoing voter and no
/// incoming one; the records are those of the members; and outside a joint
/// configuration nothing leaves automatically.
pub open spec fn staged_ok(s: StagedView) -> bool {
    &&& s.conf.learners.disjoint(s.conf.voters.incoming)
    &&& s.conf.learners.disjoint(s.conf.voters.outgoing)
    &&& s.conf.learners_next.subset_of(s.conf.voters.outgoing)
    &&& s.conf.learners_next.disjoint(s.conf.voters.incoming)
    &&& s.ids == s.conf.ids()
    &&& (s.conf.voters.outgoing.is_empty() ==> !s.conf.auto_leave)
}

/// A staged configuration that keeps the invariants of a configuration, with
/// a record for each member and for nobody else.
pub open spec fn staged_settled(s: StagedView) -> bool {
    &&& s.conf.valid()
    &&& s.ids == s.conf.ids()
}

/// A settled configuration is one that every step keeps and that has no
/// member when it has no incoming voter.
pub(crate) proof fn lemma_settled_ok(s: StagedView)
    ensures
        staged_settled(s) <==> (staged_ok(s) && (s.incoming().is_empty() ==> s.ids.is_empty())),
{
    if s.conf.voters.outgoing.is_empty() {
        if s.conf.learners_next.subset_of(s.conf.voters.outgoing) {
            assert(s.conf.learners_next =~= Set::empty());
        }
    }
}

/// One change keeps what every step keeps, and leaves the outgoing voters
/// and the automatic leave as they were.
pub(crate) proof fn lemma_apply_change_ok(s: StagedView, c: (u64, ChangeKind))
    requires
        staged_ok(s),
    ensures
        staged_ok(apply_change(s, c)),
        apply_change(s, c).conf.voters.outgoing == s.conf.voters.outgoing,
        apply_change(s, c).conf.auto_leave == s.conf.auto_leave,
{
    let r = apply_change(s, c);
    assert(r.ids =~= r.conf.ids());
}

/// Changes applied together keep what every step keeps, and leave the
/// outgoing voters and the automatic leave as they were.
pub(crate) proof fn lemma_apply_changes_ok(s: StagedView, cs: Seq<(u64, ChangeKind)>)
    requires
        staged_ok(s),
    ensures
        staged_ok(apply_changes(s, cs)),
        apply_changes(s, cs).conf.voters.outgoing == s.conf.voters.outgoing,
        apply_changes(s, cs).conf.auto_leave == s.conf.auto_leave,
    decreases cs.len(),
{
    if cs.len() > 0 {
        lemma_apply_changes_ok(s, cs.drop_last());
        lemma_apply_change_ok(apply_changes(s, cs.drop_last()), cs.last());
    }
}

/// Changes applied one at a time keep a configuration settled.
pub(crate) proof fn lemma_run_simple_settled(s: StagedView, cs: Seq<(u64, ChangeKind)>)
    requires
        staged_settled(s),
    ensures
        staged_settled(run_simple(s, cs).0),
    decreases cs.len(),
{
    if cs.len() > 0 {
        lemma_run_simple_settled(s, cs.drop_last());
        let prev = run_simple(s, cs.drop_last());
        if prev.1 {
            let next = apply_change(prev.0, cs.last());
            lemma_settled_ok(prev.0);
            lemma_apply_change_ok(prev.0, cs.last());
            lemma_settled_ok(next);
        }
    }
}

/// Entering the joint configuration keeps a configuration settled.
pub(crate) proof fn lemma_enter_joint_settled(
    s: StagedView,
    auto_leave: bool,
    cs: Seq<(u64, ChangeKind)>,
)
    requires
        staged_settled(s),
    ensures
        staged_settled(enter_joint(s, auto_leave, cs).0),
{
    lemma_settled_ok(s);
    if !s.incoming().is_empty() {
        let x: u64 = s.incoming().choose();
        assert(s.incoming().contains(x)) by {
            if !s.incoming().contains(x) {
                assert(s.incoming() =~= Set::empty());
            }
        }
        let joint = StagedView {
            conf: ConfigurationView {
                voters: JointConfigView {
                    incoming: s.conf.voters.incoming,
                    outgoing: s.conf.voters.outgoing + s.conf.voters.incoming,
                },
                ..s.conf
            },
            ids: s.ids,
        };
        assert(joint.ids =~= joint.conf.ids());
        assert(joint.conf.voters.outgoing.contains(x));
        lemma_apply_changes_ok(joint, cs);
        let next = apply_changes(joint, cs);
        if !next.incoming().is_empty() {
            let fin = StagedView {
                conf: ConfigurationView { auto_leave, ..next.conf },
                ids: next.ids,
            };
            assert(fin.conf.voters.outgoing.contains(x));
            assert(fin.ids =~= fin.conf.ids());
            lemma_settled_ok(fin);
        }
    }
}

/// Rebuilding any configuration state gives a settled configuration: it
/// keeps the invariants of a configuration and has a record for each member
/// and for nobody else.
pub proof fn lemma_restore_outcome_settled(cs: ConfStateView)
    ensures
        staged_settled(restore_outcome(cs).0),
{
    assert(staged_settled(StagedView::empty())) by {
        assert(ConfigurationView::empty().ids() =~= Set::empty());
    }
    if cs.voters_outgoing.len() == 0 {
        lemma_run_simple_settled(StagedView::empty(), incoming_changes(cs));
    } else {
        lemma_run_simple_settled(StagedView::empty(), outgoing_changes(cs));
        let first = run_simple(StagedView::empty(), outgoing_changes(cs));
        if first.1 {
            lemma_enter_joint_settled(first.0, cs.auto_leave, incoming_changes(cs));
        }
    }
}

// ---------------------------------------------------------------------------
// Rebuilding a configuration that keeps the invariants
// ---------------------------------------------------------------------------

/// The list of changes for a list of ids, less its last change, is the list
/// for the ids less the last one.
proof fn lemma_changes_of_drop_last(ids: Seq<u64>, kind: ChangeKind)
    requires
        ids.len() > 0,
    ensures
        changes_of(ids, kind).drop_last() == changes_of(ids.drop_last(), kind),
        changes_of(ids, kind).last() == (ids.last(), kind),
        ids.to_set() == ids.drop_last().to_set().insert(ids.last()),
{
    assert(changes_of(ids, kind).drop_last() =~= changes_of(ids.drop_last(), kind));
    assert(ids.drop_last().push(ids.last()) =~= ids);
    ids.drop_last().lemma_push_to_set_commute(ids.last());
}

/// Applying two lists of changes together is applying the first, then the
/// second.
proof fn lemma_apply_changes_append(
    s: StagedView,
    a: Seq<(u64, ChangeKind)>,
    b: Seq<(u64, ChangeKind)>,
)
    ensures
        apply_changes(s, a + b) == apply_changes(apply_changes(s, a), b),
    decreases b.len(),
{
    if b.len() == 0 {
        assert(a + b =~= a);
    } else {
        assert((a + b).drop_last() =~= a + b.drop_last());
        assert((a + b).last() == b.last());
        lemma_apply_changes_append(s, a, b.drop_last());
    }
}

/// When a first list of changes applies one at a time without a failure,
/// the two lists one at a time are the second one at a time after it.
proof fn lemma_run_simple_append(
    s: StagedView,
    a: Seq<(u64, ChangeKind)>,
    b: Seq<(u64, ChangeKind)>,
)
    requires
        run_simple(s, a).1,
    ensures
        run_simple(s, a + b) == run_simple(run_simple(s, a).0, b),
    decreases b.len(),
{
    if b.len() == 0 {
        assert(a + b =~= a);
    } else {
        assert((a + b).drop_last() =~= a + b.drop_last());
        assert((a + b).last() == b.last());
        lemma_run_simple_append(s, a, b.drop_last());
    }
}

/// Adding voters that are not id zero makes them incoming voters with a
/// record, and no learners; one at a time, no such step fails.
proof fn lemma_add_voters(s: StagedView, w: Seq<u64>)
    requires
        staged_ok(s),
        !w.contains(0),
    ensures
        apply_changes(s, changes_of(w, ChangeKind::AddNode)) == (StagedView {
            conf: ConfigurationView {
                voters: JointConfigView {
                    incoming: s.conf.voters.incoming + w.to_set(),
                    outgoing: s.conf.voters.outgoing,
                },
                learners: s.conf.learners - w.to_set(),
                learners_next: s.conf.learners_next - w.to_set(),
                auto_leave: s.conf.auto_leave,
            },
            ids: s.ids + w.to_set(),
        }),
        run_simple(s, changes_of(w, ChangeKind::AddNode)) == (
            apply_changes(s, changes_of(w, ChangeKind::AddNode)),
            true,
        ),
    decreases w.len(),
{
    let cs = changes_of(w, ChangeKind::AddNode);
    if w.len() == 0 {
        assert(cs =~= Seq::empty());
        let r = apply_changes(s, cs);
        assert(r.conf.voters.incoming =~= s.conf.voters.incoming + w.to_set());
        assert(r.conf.learners =~= s.conf.learners - w.to_set());
        assert(r.conf.learners_next =~= s.conf.learners_next - w.to_set());
        assert(r.ids =~= s.ids + w.to_set());
    } else {
        let x = w.last();
        assert(w.contains(x)) by {
            assert(w[w.len() - 1] == x);
        }
        assert(!w.drop_last().contains(0)) by {
            if w.drop_last().contains(0) {
                let j: int = choose|j: int| 0 <= j < w.drop_last().len() && w.drop_last()[j] == 0;
                assert(w[j] == 0);
            }
        }
        lemma_changes_of_drop_last(w, ChangeKind::AddNode);
        lemma_add_voters(s, w.drop_last());
        let prev = apply_changes(s, changes_of(w.drop_last(), ChangeKind::AddNode));
        lemma_apply_changes_ok(s, changes_of(w.drop_last(), ChangeKind::AddNode));
        let next = apply_change(prev, (x, ChangeKind::AddNode));
        assert(next.conf.voters.incoming =~= s.conf.voters.incoming + w.to_set());
        assert(next.conf.learners =~= s.conf.learners - w.to_set());
        assert(next.conf.learners_next =~= s.conf.learners_next - w.to_set());
        assert(next.ids =~= s.ids + w.to_set());
        assert(next.incoming().contains(x));
    }
}

/// Removing outgoing voters that are not id zero takes them out of the
/// incoming voters and the learners, and keeps their records.
proof fn lemma_remove_outgoing(s: StagedView, w: Seq<u64>)
    requires
        staged_ok(s),
        !w.contains(0),
        w.to_set().subset_of(s.conf.voters.outgoing),
    ensures
        apply_changes(s, changes_of(w, ChangeKind::RemoveNode)) == (StagedView {
            conf: ConfigurationView {
                voters: JointConfigView {
                    incoming: s.conf.voters.incoming - w.to_set(),
                    outgoing: s.conf.voters.outgoing,
                },
                learners: s.conf.learners - w.to_set(),
                learners_next: s.conf.learners_next - w.to_set(),
                auto_leave: s.conf.auto_leave,
            },
            ids: s.ids,
        }),
    decreases w.len(),
{
    let cs = changes_of(w, ChangeKind::RemoveNode);
    if w.len() == 0 {
        assert(cs =~= Seq::empty());
        let r = apply_changes(s, cs);
        assert(r.conf.voters.incoming =~= s.conf.voters.incoming - w.to_set());
        assert(r.conf.learners =~= s.conf.learners - w.to_set());
        assert(r.conf.learners_next =~= s.conf.learners_next - w.to_set());
    } else {
        let x = w.last();
        assert(w.contains(x)) by {
            assert(w[w.len() - 1] == x);
        }
        assert(!w.drop_last().contains(0)) by {
            if w.drop_last().contains(0) {
                let j: int = choose|j: int| 0 <= j < w.drop_last().len() && w.drop_last()[j] == 0;
                assert(w[j] == 0);
            }
        }
        lemma_changes_of_drop_last(w, ChangeKind::RemoveNode);
        lemma_remove_outgoing(s, w.drop_last());
        let prev = apply_changes(s, changes_of(w.drop_last(), ChangeKind::RemoveNode));
        let next = apply_change(prev, (x, ChangeKind::RemoveNode));
        assert(prev.ids.contains(x));
        assert(next.conf.voters.incoming =~= s.conf.voters.incoming - w.to_set());
        assert(next.conf.learners =~= s.conf.learners - w.to_set());
        assert(next.conf.learners_next =~= s.conf.learners_next - w.to_set());
    }
}

/// Adding learners that are not id zero, no voter, and either new or
/// learners already, makes them learners with a record; one at a time, no
/// such step fails while there are incoming voters.
proof fn lemma_add_fresh_learners(s: StagedView, w: Seq<u64>)
    requires
        staged_ok(s),
        !w.contains(0),
        forall|x: u64|
            w.contains(x) ==> !s.conf.voters.incoming.contains(x)
                && !s.conf.voters.outgoing.contains(x) && (s.ids.contains(x)
                ==> s.conf.learners.contains(x)),
    ensures
        apply_changes(s, changes_of(w, ChangeKind::AddLearnerNode)) == (StagedView {
            conf: ConfigurationView { learners: s.conf.learners + w.to_set(), ..s.conf },
            ids: s.ids + w.to_set(),
        }),
        !s.incoming().is_empty() ==> run_simple(s, changes_of(w, ChangeKind::AddLearnerNode)) == (
            apply_changes(s, changes_of(w, ChangeKind::AddLearnerNode)),
            true,
        ),
    decreases w.len(),
{
    let cs = changes_of(w, ChangeKind::AddLearnerNode);
    if w.len() == 0 {
        assert(cs =~= Seq::empty());
        let r = apply_changes(s, cs);
        assert(r.conf.learners =~= s.conf.learners + w.to_set());
        assert(r.ids =~= s.ids + w.to_set());
        assert(r.conf =~= ConfigurationView { learners: s.conf.learners + w.to_set(), ..s.conf });
    } else {
        let x = w.last();
        assert(w.contains(x)) by {
            assert(w[w.len() - 1] == x);
        }
        assert(forall|y: u64| w.drop_last().contains(y) ==> w.contains(y)) by {
            assert forall|y: u64| w.drop_last().contains(y) implies w.contains(y) by {
                let j: int = choose|j: int| 0 <= j < w.drop_last().len() && w.drop_last()[j] == y;
                assert(w[j] == y);
            }
        }
        lemma_changes_of_drop_last(w, ChangeKind::AddLearnerNode);
        assert forall|y: u64| w.drop_last().contains(y) implies !s.conf.voters.incoming.contains(y)
            && !s.conf.voters.outgoing.contains(y) && (s.ids.contains(y)
            ==> s.conf.learners.contains(y)) by {
            assert(w.contains(y));
        }
        lemma_add_fresh_learners(s, w.drop_last());
        let prev = apply_changes(s, changes_of(w.drop_last(), ChangeKind::AddLearnerNode));
        let next = apply_change(prev, (x, ChangeKind::AddLearnerNode));
        assert(next.conf.learners =~= s.conf.learners + w.to_set());
        assert(next.ids =~= s.ids + w.to_set());
        assert(next.conf =~= ConfigurationView { learners: s.conf.learners + w.to_set(), ..s.conf });
        assert(next.incoming() == s.incoming());
    }
}

/// Adding as learners outgoing voters that are not id zero, no learners and
/// no incoming voters, makes them wait for the joint configuration to end.
proof fn lemma_add_staged_learners(s: StagedView, w: Seq<u64>)
    requires
        staged_ok(s),
        !w.contains(0),
        forall|x: u64|
            w.contains(x) ==> s.conf.voters.outgoing.contains(x) && !s.conf.learners.contains(x)
                && !s.conf.voters.incoming.contains(x),
    ensures
        apply_changes(s, changes_of(w, ChangeKind::AddLearnerNode)) == (StagedView {
            conf: ConfigurationView {
                learners_next: s.conf.learners_next + w.to_set(),
                ..s.conf
            },
            ids: s.ids,
        }),
    decreases w.len(),
{
    let cs = changes_of(w, ChangeKind::AddLearnerNode);
    if w.len() == 0 {
        assert(cs =~= Seq::empty());
        let r = apply_changes(s, cs);
        assert(r.conf.learners_next =~= s.conf.learners_next + w.to_set());
    } else {
        let x = w.last();
        assert(w.contains(x)) by {
            assert(w[w.len() - 1] == x);
        }
        assert(forall|y: u64| w.drop_last().contains(y) ==> w.contains(y)) by {
            assert forall|y: u64| w.drop_last().contains(y) implies w.contains(y) by {
                let j: int = choose|j: int| 0 <= j < w.drop_last().len() && w.drop_last()[j] == y;
                assert(w[j] == y);
            }
        }
        lemma_changes_of_drop_last(w, ChangeKind::AddLearnerNode);
        assert forall|y: u64| w.drop_last().contains(y) implies s.conf.voters.outgoing.contains(y)
            && !s.conf.learners.contains(y) && !s.conf.voters.incoming.contains(y) by {
            assert(w.contains(y));
        }
        lemma_add_staged_learners(s, w.drop_last());
        let prev = apply_changes(s, changes_of(w.drop_last(), ChangeKind::AddLearnerNode));
        let next = apply_change(prev, (x, ChangeKind::AddLearnerNode));
        assert(prev.ids.contains(x));
        assert(next.conf.voters.incoming =~= s.conf.voters.incoming);
        assert(next.conf.learners =~= s.conf.learners);
        assert(next.conf.learners_next =~= s.conf.learners_next + w.to_set());
    }
}

/// A list whose set of ids is empty has no id.
proof fn lemma_empty_ids(w: Seq<u64>)
    requires
        w.to_set().is_empty(),
    ensures
        w.len() == 0,
{
    if w.len() > 0 {
        assert(w.to_set().contains(w[0]));
    }
}

/// Rebuilding a configuration state that keeps the invariants of a
/// configuration and has no member of id zero succeeds at every step, and
/// gives back that configuration with a record for each member.
pub proof fn lemma_restore_outcome_valid(cs: ConfStateView)
    requires
        cs.configuration().valid(),
        !cs.configuration().ids().contains(0),
    ensures
        restore_outcome(cs) == (StagedView {
            conf: cs.configuration(),
            ids: cs.configuration().ids(),
        }, true),
{
    let c = cs.configuration();
    let e = StagedView::empty();
    assert(staged_ok(e)) by {
        assert(ConfigurationView::empty().ids() =~= Set::empty());
    }
    assert(!cs.voters.contains(0)) by {
        assert(c.ids().contains(0) <== cs.voters.contains(0));
    }
    assert(!cs.voters_outgoing.contains(0)) by {
        assert(c.ids().contains(0) <== cs.voters_outgoing.contains(0));
    }
    assert(!cs.learners.contains(0)) by {
        assert(c.ids().contains(0) <== cs.learners.contains(0));
    }
    assert(!cs.learners_next.contains(0)) by {
        assert(c.ids().contains(0) <== cs.learners_next.contains(0));
    }
    let adds = changes_of(cs.voters, ChangeKind::AddNode);
    let learns = changes_of(cs.learners, ChangeKind::AddLearnerNode);
    let nexts = changes_of(cs.learners_next, ChangeKind::AddLearnerNode);
    let removes = changes_of(cs.voters_outgoing, ChangeKind::RemoveNode);
    if cs.voters_outgoing.len() == 0 {
        assert(c.voters.outgoing =~= Set::empty());
        assert(c.learners_next.is_empty());
        lemma_empty_ids(cs.learners_next);
        assert(incoming_changes(cs) =~= adds + learns);
        lemma_add_voters(e, cs.voters);
        let s1 = apply_changes(e, adds);
        lemma_apply_changes_ok(e, adds);
        lemma_run_simple_append(e, adds, learns);
        if cs.voters.len() == 0 {
            assert(c.voters.incoming.is_empty());
            assert(c.learners.is_empty()) by {
                assert(c.ids().is_empty());
                assert forall|x: u64| !c.learners.contains(x) by {
                    assert(c.learners.contains(x) ==> c.ids().contains(x));
                }
            }
            lemma_empty_ids(cs.learners);
            assert(learns =~= Seq::empty());
            assert(s1.conf =~= c);
            assert(s1.ids =~= c.ids());
        } else {
            assert(s1.incoming().contains(cs.voters[0]));
            lemma_add_fresh_learners(s1, cs.learners);
            let s2 = apply_changes(s1, learns);
            assert(s2.conf.voters.incoming =~= c.voters.incoming);
            assert(s2.conf.learners =~= c.learners);
            assert(s2.conf.learners_next =~= c.learners_next);
            assert(c.voters.outgoing.is_empty());
            assert(s2.conf =~= c);
            assert(s2.ids =~= c.ids());
        }
    } else {
        let o = cs.voters_outgoing.to_set();
        lemma_add_voters(e, cs.voters_outgoing);
        let s1 = apply_changes(e, outgoing_changes(cs));
        lemma_apply_changes_ok(e, outgoing_changes(cs));
        assert(o.contains(cs.voters_outgoing[0]));
        assert(s1.incoming().contains(cs.voters_outgoing[0]));
        let joint = StagedView {
            conf: ConfigurationView {
                voters: JointConfigView {
                    incoming: s1.conf.voters.incoming,
                    outgoing: s1.conf.voters.outgoing + s1.conf.voters.incoming,
                },
                ..s1.conf
            },
            ids: s1.ids,
        };
        assert(joint.conf.voters.outgoing =~= o);
        assert(joint.conf.voters.incoming =~= o);
        assert(joint.conf.learners =~= Set::empty());
        assert(joint.conf.learners_next =~= Set::empty());
        assert(joint.ids =~= o);
        assert(staged_ok(joint)) by {
            assert(joint.ids =~= joint.conf.ids());
        }
        lemma_apply_changes_append(joint, removes + adds + learns, nexts);
        lemma_apply_changes_append(joint, removes + adds, learns);
        lemma_apply_changes_append(joint, removes, adds);
        lemma_remove_outgoing(joint, cs.voters_outgoing);
        let j1 = apply_changes(joint, removes);
        lemma_apply_changes_ok(joint, removes);
        lemma_add_voters(j1, cs.voters);
        let j2 = apply_changes(j1, adds);
        lemma_apply_changes_ok(j1, adds);
        assert(j2.conf.voters.incoming =~= c.voters.incoming);
        assert(j2.conf.learners =~= Set::empty());
        assert(j2.ids =~= o + c.voters.incoming);
        lemma_add_fresh_learners(j2, cs.learners);
        let j3 = apply_changes(j2, learns);
        lemma_apply_changes_ok(j2, learns);
        lemma_add_staged_learners(j3, cs.learners_next);
        let j4 = apply_changes(j3, nexts);
        assert(incoming_changes(cs) == removes + adds + learns + nexts);
        assert(j4 == apply_changes(joint, incoming_changes(cs)));
        assert(!j4.incoming().is_empty()) by {
            assert(c.ids().contains(cs.voters_outgoing[0]));
            if j4.incoming().is_empty() {
                assert(c.voters.incoming.is_empty());
            }
        }
        let fin = enter_joint(s1, cs.auto_leave, incoming_changes(cs)).0;
        assert(fin.conf.voters.incoming =~= c.voters.incoming);
        assert(fin.conf.learners =~= c.learners);
        assert(fin.conf.learners_next =~= c.learners_next);
        assert(fin.conf =~= c);
        assert(fin.ids =~= c.ids());
    }
}

// ---------------------------------------------------------------------------
// Executable staging
// ---------------------------------------------------------------------------

/// A configuration being built, with the ids that have a progress record.
pub struct Staged {
    pub incoming: HashSet<u64>,
    pub outgoing: HashSet<u64>,
    pub learners: HashSet<u64>,
    pub learners_next: HashSet<u64>,
    pub auto_leave: bool,
    pub ids: HashSet<u64>,
}

impl View for Staged {
    type V = StagedView;

    open spec fn view(&self) -> StagedView {
        StagedView {
            conf: ConfigurationView {
                voters: JointConfigView { incoming: self.incoming@, outgoing: self.outgoing@ },
                learners: self.learners@,
                learners_next: self.learners_next@,
                auto_leave: self.auto_leave,
            },
            ids: self.ids@,
        }
    }
}

/// A copy of a set of ids.
fn copy_set(s: &HashSet<u64>) -> (r: HashSet<u64>)
    ensures
        r@ == s@,
{
    ids_to_set(&set_to_ids(s))
}

/// A copy of a staged configuration.
fn copy_staged(st: &Staged) -> (r: Staged)
    ensures
        r@ == st@,
{
    Staged {
        incoming: copy_set(&st.incoming),
        outgoing: copy_set(&st.outgoing),
        learners: copy_set(&st.learners),
        learners_next: copy_set(&st.learners_next),
        auto_leave: st.auto_leave,
        ids: copy_set(&st.ids),
    }
}

/// Applies one change to a staged configuration.
fn stage_change(st: &mut Staged, c: (u64, ChangeKind))
    ensures
        final(st)@ == apply_change(old(st)@, c),
{
    let id = c.0;
    if id == 0 {
        return ;
    }
    match c.1 {
        ChangeKind::AddNode => {
            if !st.ids.contains(&id) {
                st.incoming.insert(id);
                st.ids.insert(id);
            } else {
                st.incoming.insert(id);
                st.learners.remove(&id);
                st.learners_next.remove(&id);
            }
        },
        ChangeKind::AddLearnerNode => {
            if !st.ids.contains(&id) {
                st.learners.insert(id);
                st.ids.insert(id);
            } else if st.learners.contains(&id) {
            } else {
                st.incoming.remove(&id);
                st.learners.remove(&id);
                st.learners_next.remove(&id);
                if st.outgoing.contains(&id) {
                    st.learners_next.insert(id);
                } else {
                    st.learners.insert(id);
                }
            }
        },
        ChangeKind::RemoveNode => {
            if st.ids.contains(&id) {
                st.incoming.remove(&id);
                st.learners.remove(&id);
                st.learners_next.remove(&id);
                if !st.outgoing.contains(&id) {
                    st.ids.remove(&id);
                }
            }
        },
    }
}

/// Once a run of changes fails, further changes do not alter its outcome.
proof fn lemma_run_simple_failed(s: StagedView, cs: Seq<(u64, ChangeKind)>, i: int)
    requires
        0 <= i <= cs.len(),
        !run_simple(s, cs.take(i)).1,
    ensures
        run_simple(s, cs) == run_simple(s, cs.take(i)),
    decreases cs.len() - i,
{
    if i < cs.len() {
        assert(cs.take(i + 1).drop_last() =~= cs.take(i));
        lemma_run_simple_failed(s, cs, i + 1);
    } else {
        assert(cs.take(i) =~= cs);
    }
}

/// Applies the changes one at a time, each on its own; see [`run_simple`].
fn stage_simple(st: &mut Staged, cs: &Vec<(u64, ChangeKind)>) -> (ok: bool)
    ensures
        (final(st)@, ok) == run_simple(old(st)@, cs@),
{
    let ghost start = st@;
    for i in 0..cs.len()
        invariant
            start == old(st)@,
            st@ == run_simple(start, cs@.take(i as int)).0,
            run_simple(start, cs@.take(i as int)).1,
    {
        proof {
            assert(cs@.take(i + 1).drop_last() =~= cs@.take(i as int));
        }
        let mut next = copy_staged(st);
        stage_change(&mut next, cs[i]);
        proof {
            assert(cs@.take(i + 1).last() == cs@[i as int]);
        }
        if next.incoming.is_empty() {
            proof {
                assert(next@.incoming().is_empty()) by {
                    assert(next@.incoming() =~= Set::empty());
                }
                assert(run_simple(start, cs@.take(i + 1)) == (st@, false));
                lemma_run_simple_failed(start, cs@, i + 1);
            }
            return false;
        }
        *st = next;
    }
    proof {
        assert(cs@.take(cs@.len() as int) =~= cs@);
    }
    true
}

/// Enters the joint configuration with the given changes; see
/// [`enter_joint`].
fn stage_joint(st: &mut Staged, auto_leave: bool, cs: &Vec<(u64, ChangeKind)>) -> (ok: bool)
    ensures
        (final(st)@, ok) == enter_joint(old(st)@, auto_leave, cs@),
{
    if st.incoming.is_empty() {
        return false;
    }
    let mut next = copy_staged(st);
    let incoming_ids = set_to_ids(&st.incoming);
    let ghost out0 = next.outgoing@;
    for i in 0..incoming_ids.len()
        invariant
            next.outgoing@ == out0 + incoming_ids@.subrange(0, i as int).to_set(),
            next.incoming@ == st.incoming@,
            next.learners@ == st.learners@,
            next.learners_next@ == st.learners_next@,
            next.ids@ == st.ids@,
            next.auto_leave == st.auto_leave,
    {
        next.outgoing.insert(incoming_ids[i]);
        proof {
            assert(incoming_ids@.subrange(0, i + 1) == incoming_ids@.subrange(0, i as int).push(
                incoming_ids@[i as int],
            ));
            incoming_ids@.subrange(0, i as int).lemma_push_to_set_commute(incoming_ids@[i as int]);
            assert(next.outgoing@ =~= out0 + incoming_ids@.subrange(0, i + 1).to_set());
        }
    }
    proof {
        assert(incoming_ids@.subrange(0, incoming_ids@.len() as int) == incoming_ids@);
    }
    let ghost joint = next@;
    for i in 0..cs.len()
        invariant
            next@ == apply_changes(joint, cs@.take(i as int)),
    {
        proof {
            assert(cs@.take(i + 1).drop_last() =~= cs@.take(i as int));
        }
        stage_change(&mut next, cs[i]);
    }
    proof {
        assert(cs@.take(cs@.len() as int) =~= cs@);
    }
    if next.incoming.is_empty() {
        return false;
    }
    next.auto_leave = auto_leave;
    *st = next;
    true
}

/// The same change for each id of a list.
fn changes_for(ids: &Vec<u64>, kind: ChangeKind, out: &mut Vec<(u64, ChangeKind)>)
    ensures
        final(out)@ == old(out)@ + changes_of(ids@, kind),
{
    let ghost start = out@;
    for i in 0..ids.len()
        invariant
            out@ == start + changes_of(ids@.subrange(0, i as int), kind),
    {
        out.push((ids[i], kind));
        proof {
            assert(changes_of(ids@.subrange(0, i + 1), kind) =~= changes_of(
                ids@.subrange(0, i as int),
                kind,
            ).push((ids@[i as int], kind)));
        }
    }
    proof {
        assert(ids@.subrange(0, ids@.len() as int) == ids@);
    }
}

/// Rebuilds the configuration of a configuration state from nothing, one
/// change at a time; see [`restore_outcome`].
pub fn stage_conf_state(cs: &ConfState) -> (r: (Staged, bool))
    ensures
        (r.0@, r.1) == restore_outcome(cs@),
{
    let mut outgoing: Vec<(u64, ChangeKind)> = Vec::new();
    changes_for(&cs.voters_outgoing, ChangeKind::AddNode, &mut outgoing);
    let mut incoming: Vec<(u64, ChangeKind)> = Vec::new();
    changes_for(&cs.voters_outgoing, ChangeKind::RemoveNode, &mut incoming);
    changes_for(&cs.voters, ChangeKind::AddNode, &mut incoming);
    changes_for(&cs.learners, ChangeKind::AddLearnerNode, &mut incoming);
    changes_for(&cs.learners_next, ChangeKind::AddLearnerNode, &mut incoming);
    assert(outgoing@ =~= outgoing_changes(cs@));
    assert(incoming@ =~= incoming_changes(cs@));
    let mut st = Staged {
        incoming: HashSet::new(),
        outgoing: HashSet::new(),
        learners: HashSet::new(),
        learners_next: HashSet::new(),
        auto_leave: false,
        ids: HashSet::new(),
    };
    assert(st@ == StagedView::empty()) by {
        assert(st@.conf =~= ConfigurationView::empty());
    }
    if cs.voters_outgoing.len() == 0 {
        let ok = stage_simple(&mut st, &incoming);
        (st, ok)
    } else {
        let ok = stage_simple(&mut st, &outgoing);
        if !ok {
            (st, false)
        } else {
            let ok2 = stage_joint(&mut st, cs.auto_leave, &incoming);
            (st, ok2)
        }
    }
}

/// Why a configuration state could not be rebuilt in a tracker.
#[derive(Clone, Copy, Debug, PartialEq, Eq, Structural)]
pub enum ConfChangeError {
    /// A step of the rebuild would leave the configuration without an
    /// incoming voter.
    NoIncomingVoters,
}

/// Rebuilds in an empty tracker the configuration that `cs` records, one
/// change at a time as [`stage_conf_state`] does, each member getting the
/// record of a peer that has just joined, probing from `next_idx`. When a
/// step would leave no incoming voter the rebuild stops there, with an
/// error, and the tracker keeps what the earlier steps installed.
pub fn restore(tracker: &mut ProgressTracker, next_idx: u64, cs: &ConfState) -> (r: Result<
    (),
    ConfChangeError,
>)
    requires
        old(tracker)@.progress.dom().is_empty(),
        old(tracker)@.conf == ConfigurationView::empty(),
    ensures
        r is Ok <==> restore_outcome(cs@).1,
        final(tracker)@ == (ProgressTrackerView {
            progress: Map::new(
                |id: u64| restore_outcome(cs@).0.ids.contains(id),
                |id: u64| ProgressView::joined(next_idx, old(tracker)@.max_inflight),
            ),
            conf: restore_outcome(cs@).0.conf,
            ..old(tracker)@
        }),
{
    proof {
        tracker.lemma_view_fields();
    }
    let (st, ok) = stage_conf_state(cs);
    let ghost target = st@;
    let ids = set_to_ids(&st.ids);
    assert(tracker.progress@.dom() =~= Set::empty());
    insert_joined(&mut tracker.progress, &ids, next_idx, tracker.max_inflight);
    tracker.conf = Configuration {
        voters: JointConfig {
            incoming: MajorityConfig::new(st.incoming),
            outgoing: MajorityConfig::new(st.outgoing),
        },
        learners: st.learners,
        learners_next: st.learners_next,
        auto_leave: st.auto_leave,
    };
    proof {
        tracker.lemma_view_fields();
        let goal = Map::new(
            |id: u64| target.ids.contains(id),
            |id: u64| ProgressView::joined(next_idx, tracker.max_inflight),
        );
        assert(tracker.progress@.dom() =~= target.ids);
        assert(tracker@.progress =~= goal);
        assert(tracker@.conf == target.conf);
    }
    if ok {
        Ok(())
    } else {
        Err(ConfChangeError::NoIncomingVoters)
    }
}

} // verus!
