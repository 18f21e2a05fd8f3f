//! Debouncing: from a noisy digital input to settled level changes.
//!
//! One cycle samples the level, waits for any edge, holds for the settle
//! time and samples again. Only if the second sample differs from the first
//! has the level changed; otherwise the edge was noise and the cycle starts
//! over. Edges that arrive while the debouncer holds are bounces and are
//! dropped.

use vstd::prelude::*;

verus! {

/// The settle time, in milliseconds, of the device's buttons.
pub const DEBOUNCE: u16 = 100;

/// A logical level of a digital input.
#[derive(Clone, Copy, Debug, PartialEq, Eq, Structural)]
pub enum Level {
    Low,
    High,
}

/// What the input was seen to do.
#[derive(Clone, Copy, Debug, PartialEq, Eq, Structural)]
pub enum Observation {
    /// The level was read.
    Sampled(Level),
    /// An edge arrived, rising or falling.
    Edge,
}

/// Where a debounce cycle stands.
#[derive(Clone, Copy, Debug, PartialEq, Eq, Structural)]
pub enum Phase {
    /// The cycle starts: the level is to be read.
    Sampling,
    /// The level was read; an edge is awaited.
    Armed(Level),
    /// An edge arrived; the level is read again once the settle time is over.
    Settling(Level),
}

/// What the debouncer waits for next.
#[derive(Clone, Copy, Debug, PartialEq, Eq, Structural)]
pub enum Wait {
    /// Read the level now and report it.
    Sample,
    /// Await any edge and report it.
    AwaitEdge,
    /// Hold for so many milliseconds, then read the level and report it.
    HoldThenSample(u16),
}

/// A debouncer for one input.
#[derive(Clone, Copy, Debug, PartialEq, Eq, Structural)]
pub struct Debouncer {
    /// The settle time in milliseconds.
    pub debounce: u16,
    pub phase: Phase,
}

impl Debouncer {
    /// The debouncer in another phase.
    pub open spec fn at(self, phase: Phase) -> Debouncer {
        Debouncer { debounce: self.debounce, phase }
    }

    /// What the debouncer waits for in its phase.
    pub open spec fn spec_pending(self) -> Wait {
        match self.phase {
            Phase::Sampling => Wait::Sample,
            Phase::Armed(_) => Wait::AwaitEdge,
            Phase::Settling(_) => Wait::HoldThenSample(self.debounce),
        }
    }

    /// One observation: the debouncer afterwards, and the settled level if
    /// the observation completed a level change. An observation that the
    /// phase does not wait for changes nothing.
    pub open spec fn spec_debounce(self, seen: Observation) -> (Debouncer, Option<Level>) {
        match (self.phase, seen) {
            (Phase::Sampling, Observation::Sampled(level)) => (self.at(Phase::Armed(level)), None),
            (Phase::Armed(before), Observation::Edge) => (self.at(Phase::Settling(before)), None),
            (Phase::Settling(before), Observation::Sampled(level)) => (
                self.at(Phase::Sampling),
                if level != before {
                    Some(level)
                } else {
                    None
                },
            ),
            _ => (self, None),
        }
    }

    /// A whole trace of observations, oldest first: the debouncer afterwards
    /// and the settled levels that it produced, in order.
    pub open spec fn spec_replay(self, trace: Seq<Observation>) -> (Debouncer, Seq<Level>)
        decreases trace.len(),
    {
        if trace.len() == 0 {
            (self, Seq::empty())
        } else {
            let (before, settled) = self.spec_replay(trace.drop_last());
            let (after, produced) = before.spec_debounce(trace.last());
            (
                after,
                match produced {
                    Some(level) => settled.push(level),
                    None => settled,
                },
            )
        }
    }

    /// A debouncer at the start of a cycle.
    pub fn new(debounce: u16) -> (debouncer: Debouncer)
        ensures
            debouncer == (Debouncer { debounce, phase: Phase::Sampling }),
    {
        Debouncer { debounce, phase: Phase::Sampling }
    }

    /// What the debouncer waits for next.
    pub fn pending(&self) -> (wait: Wait)
        ensures
            wait == self.spec_pending(),
    {
        match self.phase {
            Phase::Sampling => Wait::Sample,
            Phase::Armed(_) => Wait::AwaitEdge,
            Phase::Settling(_) => Wait::HoldThenSample(self.debounce),
        }
    }

    /// Takes one observation and returns the settled level if the
    /// observation completed a level change.
    pub fn debounce(&mut self, seen: Observation) -> (settled: Option<Level>)
        ensures
            (*final(self), settled) == old(self).spec_debounce(seen),
    {
        match (self.phase, seen) {
            (Phase::Sampling, Observation::Sampled(level)) => {
                self.phase = Phase::Armed(level);
                None
            },
            (Phase::Armed(before), Observation::Edge) => {
                self.phase = Phase::Settling(before);
                None
            },
            (Phase::Settling(before), Observation::Sampled(level)) => {
                self.phase = Phase::Sampling;
                if level != before {
                    Some(level)
                } else {
                    None
                }
            },
            _ => None,
        }
    }

    /// Takes a recorded trace of observations, oldest first, and returns the
    /// settled levels that it produces.
    pub fn replay(&mut self, trace: &[Observation]) -> (settled: Vec<Level>)
        ensures
            (*final(self), settled@) == old(self).spec_replay(trace@),
    {
        let mut settled: Vec<Level> = Vec::new();
        let mut i: usize = 0;
        proof {
            assert(trace@.take(0) =~= Seq::<Observation>::empty());
        }
        while i < trace.len()
            invariant
                0 <= i <= trace.len(),
                (*self, settled@) == old(self).spec_replay(trace@.take(i as int)),
            decreases trace.len() - i,
        {
            proof {
                let head = trace@.take(i as int + 1);
                assert(head.drop_last() =~= trace@.take(i as int));
                assert(head.last() == trace@[i as int]);
            }
            match self.debounce(trace[i]) {
                Some(level) => {
                    settled.push(level);
                },
                None => {},
            }
            i = i + 1;
        }
        proof {
            assert(trace@.take(i as int) =~= trace@);
        }
        settled
    }
}

/// The level that a trace read last, if it read any.
pub open spec fn last_sample(trace: Seq<Observation>) -> Option<Level>
    decreases trace.len(),
{
    if trace.len() == 0 {
        None
    } else {
        match trace.last() {
            Observation::Sampled(level) => Some(level),
            Observation::Edge => last_sample(trace.drop_last()),
        }
    }
}

/// The number of genuine level changes in a trace: the readings that differ
/// from the reading before them.
pub open spec fn level_changes(trace: Seq<Observation>) -> nat
    decreases trace.len(),
{
    if trace.len() == 0 {
        0
    } else {
        let earlier = level_changes(trace.drop_last());
        match (trace.last(), last_sample(trace.drop_last())) {
            (Observation::Sampled(level), Some(before)) => if level != before {
                earlier + 1
            } else {
                earlier
            },
            _ => earlier,
        }
    }
}

/// Whether a trace holds nothing but edges.
pub open spec fn only_edges(trace: Seq<Observation>) -> bool {
    forall|i: int| 0 <= i < trace.len() ==> #[trigger] trace[i] == Observation::Edge
}

/// The bound behind the law below, with what the induction needs: while a
/// cycle is under way, a reading that already differs from the cycle's first
/// one is a change that no settled level has used up yet.
proof fn lemma_replay_bound(start: Debouncer, trace: Seq<Observation>)
    requires
        start.phase == Phase::Sampling,
    ensures
        ({
            let (after, settled) = start.spec_replay(trace);
            match after.phase {
                Phase::Sampling => settled.len() <= level_changes(trace),
                Phase::Armed(first) | Phase::Settling(first) => {
                    &&& last_sample(trace) is Some
                    &&& settled.len() + (if last_sample(trace) != Some(first) {
                        1nat
                    } else {
                        0nat
                    }) <= level_changes(trace)
                },
            }
        }),
    decreases trace.len(),
{
    if trace.len() > 0 {
        lemma_replay_bound(start, trace.drop_last());
    }
}

/// Bounce rejection: a debouncer that starts a cycle produces at most one
/// settled level per genuine level change of its input, however many edges
/// the trace holds and wherever they fall.
pub proof fn lemma_at_most_one_event_per_change(debounce: u16, trace: Seq<Observation>)
    ensures
        (Debouncer { debounce, phase: Phase::Sampling }).spec_replay(trace).1.len()
            <= level_changes(trace),
{
    lemma_replay_bound(Debouncer { debounce, phase: Phase::Sampling }, trace);
}

/// Edges alone settle nothing, and while the debouncer holds for the settle
/// time they do not even move it: any run of them leaves it as it was.
pub proof fn lemma_bounces_are_dropped(debouncer: Debouncer, edges: Seq<Observation>)
    requires
        only_edges(edges),
    ensures
        debouncer.spec_replay(edges).1.len() == 0,
        debouncer.phase is Settling ==> debouncer.spec_replay(edges).0 == debouncer,
        debouncer.phase is Sampling ==> debouncer.spec_replay(edges).0 == debouncer,
        debouncer.phase is Armed && edges.len() > 0 ==> debouncer.spec_replay(edges).0
            == debouncer.at(Phase::Settling(debouncer.phase->Armed_0)),
    decreases edges.len(),
{
    if edges.len() > 0 {
        let front = edges.drop_last();
        assert(only_edges(front)) by {
            assert forall|i: int| 0 <= i < front.len() implies #[trigger] front[i]
                == Observation::Edge by {
                assert(front[i] == edges[i]);
            }
        }
        lemma_bounces_are_dropped(debouncer, front);
        assert(edges.last() == edges[edges.len() - 1]);
    }
}

/// A cycle settles exactly when the reading after the hold differs from the
/// reading before the edge, whatever bounced in between; the settled level
/// is the later reading, and the next cycle starts afresh.
pub proof fn lemma_cycle_settles_on_change(
    debouncer: Debouncer,
    before: Level,
    bounces: Seq<Observation>,
    after: Level,
)
    requires
        debouncer.phase == Phase::Sampling,
        only_edges(bounces),
        bounces.len() > 0,
    ensures
        debouncer.spec_replay(
            seq![Observation::Sampled(before)] + bounces + seq![Observation::Sampled(after)],
        ) == (
            debouncer,
            if before != after {
                seq![after]
            } else {
                Seq::<Level>::empty()
            },
        ),
{
    let head = seq![Observation::Sampled(before)];
    let cycle = head + bounces + seq![Observation::Sampled(after)];
    let armed = debouncer.at(Phase::Armed(before));
    assert(head.drop_last() =~= Seq::<Observation>::empty());
    assert(debouncer.spec_replay(head.drop_last()) == (debouncer, Seq::<Level>::empty()));
    assert(debouncer.spec_replay(head) == (armed, Seq::<Level>::empty()));
    lemma_replay_joins(debouncer, head, bounces);
    lemma_bounces_are_dropped(armed, bounces);
    assert(cycle.drop_last() =~= head + bounces);
    assert(cycle.last() == Observation::Sampled(after));
    let settling = debouncer.at(Phase::Settling(before));
    assert(debouncer.spec_replay(head + bounces).0 == settling);
    assert(debouncer.spec_replay(head + bounces).1 =~= Seq::<Level>::empty());
    assert(settling.at(Phase::Sampling) == debouncer);
    if before != after {
        assert(Seq::<Level>::empty().push(after) =~= seq![after]);
    }
}

/// Replaying two traces one after the other is replaying their
/// concatenation.
pub proof fn lemma_replay_joins(
    debouncer: Debouncer,
    first: Seq<Observation>,
    second: Seq<Observation>,
)
    ensures
        ({
            let (middle, early) = debouncer.spec_replay(first);
            let (after, late) = middle.spec_replay(second);
            debouncer.spec_replay(first + second) == (after, early + late)
        }),
    decreases second.len(),
{
    let (middle, early) = debouncer.spec_replay(first);
    if second.len() == 0 {
        assert(first + second =~= first);
        assert(early + Seq::<Level>::empty() =~= early);
    } else {
        let front = second.drop_last();
        lemma_replay_joins(debouncer, first, front);
        assert((first + second).drop_last() =~= first + front);
        assert((first + second).last() == second.last());
        let (before, settled) = middle.spec_replay(front);
        let (after, produced) = before.spec_debounce(second.last());
        match produced {
            Some(level) => {
                assert((early + settled).push(level) =~= early + settled.push(level));
            },
            None => {},
        }
    }
}

} // verus!
