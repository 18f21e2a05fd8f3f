//! Fair multiplexed waits.
//!
//! A task that waits on several sources at once must not starve any of them.
//! The arbiter picks one ready source per iteration and then gives the
//! sources behind it precedence, so that a source that stays ready is served
//! before any other is served twice.

use vstd::prelude::*;

verus! {

/// How many sources the device controller waits on.
pub const CONTROLLER_SOURCES: usize = 4;

/// How many sources an active session waits on.
pub const SESSION_SOURCES: usize = 3;

/// A round-robin arbiter over a fixed number of sources, numbered from zero.
#[derive(Clone, Copy, Debug, PartialEq, Eq, Structural)]
pub struct Arbiter {
    /// The number of sources.
    pub sources: usize,
    /// The source that has precedence next.
    pub next: usize,
}

/// Whether a source is marked ready. A source beyond the end of the marks
/// is not.
pub open spec fn ready_at(ready: Seq<bool>, source: int) -> bool {
    0 <= source < ready.len() && ready[source]
}

impl Arbiter {
    /// There is a source, and the one with precedence is one of them.
    pub open spec fn wf(self) -> bool {
        self.next < self.sources
    }

    /// How many sources have precedence over this one.
    pub open spec fn distance(self, source: int) -> int {
        if source >= self.next {
            source - self.next
        } else {
            source + self.sources - self.next
        }
    }

    /// The source that so many sources have precedence over.
    pub open spec fn source_at(self, distance: int) -> int {
        if distance < self.sources - self.next {
            self.next + distance
        } else {
            distance - (self.sources - self.next)
        }
    }

    /// Whether a choice is the fair one: the ready source that the fewest
    /// have precedence over, or none where no source is ready.
    pub open spec fn is_fair_pick(self, ready: Seq<bool>, choice: Option<usize>) -> bool {
        match choice {
            Some(picked) => {
                &&& picked < self.sources
                &&& ready_at(ready, picked as int)
                &&& forall|other: int|
                    0 <= other < self.sources && ready_at(ready, other) ==> self.distance(
                        picked as int,
                    ) <= #[trigger] self.distance(other)
            },
            None => forall|other: int|
                0 <= other < self.sources ==> !#[trigger] ready_at(ready, other),
        }
    }

    /// The arbiter after a choice: precedence passes to the source behind
    /// the one picked, and stays where it is when none was picked.
    pub open spec fn after(self, choice: Option<usize>) -> Arbiter {
        match choice {
            Some(picked) => Arbiter {
                sources: self.sources,
                next: if picked + 1 < self.sources {
                    (picked + 1) as usize
                } else {
                    0
                },
            },
            None => self,
        }
    }

    /// An arbiter over so many sources, the first of which has precedence.
    pub fn new(sources: usize) -> (arbiter: Arbiter)
        requires
            sources > 0,
        ensures
            arbiter == (Arbiter { sources, next: 0 }),
            arbiter.wf(),
    {
        Arbiter { sources, next: 0 }
    }

    /// Picks the source to serve among those marked ready, and passes
    /// precedence on.
    pub fn pick(&mut self, ready: &[bool]) -> (choice: Option<usize>)
        requires
            old(self).wf(),
        ensures
            old(self).is_fair_pick(ready@, choice),
            *final(self) == old(self).after(choice),
            final(self).wf(),
    {
        let mut offset: usize = 0;
        while offset < self.sources
            invariant
                self.wf(),
                *self == *old(self),
                0 <= offset <= self.sources,
                forall|earlier: int|
                    0 <= earlier < offset ==> !ready_at(ready@, #[trigger] self.source_at(earlier)),
            decreases self.sources - offset,
        {
            let source: usize = if offset < self.sources - self.next {
                self.next + offset
            } else {
                offset - (self.sources - self.next)
            };
            if source < ready.len() && ready[source] {
                proof {
                    assert(source as int == self.source_at(offset as int));
                    assert forall|other: int|
                        0 <= other < self.sources && ready_at(ready@, other) implies self.distance(
                        source as int,
                    ) <= #[trigger] self.distance(other) by {
                        let d = self.distance(other);
                        assert(self.source_at(d) == other);
                        if d < offset {
                            assert(!ready_at(ready@, self.source_at(d)));
                        }
                    }
                }
                self.next = if source + 1 < self.sources {
                    source + 1
                } else {
                    0
                };
                return Some(source);
            }
            offset = offset + 1;
        }
        proof {
            assert forall|other: int| 0 <= other < self.sources implies !#[trigger] ready_at(
                ready@,
                other,
            ) by {
                let d = self.distance(other);
                assert(self.source_at(d) == other);
                assert(!ready_at(ready@, self.source_at(d)));
            }
        }
        None
    }
}

/// The fair choice is unique: two choices that are both fair are the same.
pub proof fn lemma_fair_pick_is_unique(
    arbiter: Arbiter,
    ready: Seq<bool>,
    one: Option<usize>,
    other: Option<usize>,
)
    requires
        arbiter.wf(),
        arbiter.is_fair_pick(ready, one),
        arbiter.is_fair_pick(ready, other),
    ensures
        one == other,
{
    match (one, other) {
        (Some(a), Some(b)) => {
            assert(arbiter.distance(a as int) <= arbiter.distance(b as int));
            assert(arbiter.distance(b as int) <= arbiter.distance(a as int));
        },
        (Some(a), None) => {
            assert(!ready_at(ready, a as int));
        },
        (None, Some(b)) => {
            assert(!ready_at(ready, b as int));
        },
        (None, None) => {},
    }
}

/// A ready source that was passed over moves up: after the pick, fewer
/// sources have precedence over it than before.
pub proof fn lemma_waiting_source_moves_up(
    arbiter: Arbiter,
    ready: Seq<bool>,
    choice: Option<usize>,
    waiting: int,
)
    requires
        arbiter.wf(),
        arbiter.is_fair_pick(ready, choice),
        0 <= waiting < arbiter.sources,
        ready_at(ready, waiting),
        choice != Some(waiting as usize),
    ensures
        choice is Some,
        0 <= arbiter.after(choice).distance(waiting) < arbiter.distance(waiting),
        arbiter.after(choice).wf(),
{
    if choice is None {
        assert(!ready_at(ready, waiting));
    } else {
        let picked = choice->0 as int;
        assert(arbiter.distance(picked) <= arbiter.distance(waiting));
    }
}

/// The arbiter after a run of rounds, each with its own readiness marks and
/// each served by the fair choice.
pub open spec fn after_rounds(arbiter: Arbiter, rounds: Seq<Seq<bool>>) -> Arbiter
    decreases rounds.len(),
{
    if rounds.len() == 0 {
        arbiter
    } else {
        let before = after_rounds(arbiter, rounds.drop_last());
        before.after(fair_pick(before, rounds.last()))
    }
}

/// The fair choice for given readiness marks.
pub open spec fn fair_pick(arbiter: Arbiter, ready: Seq<bool>) -> Option<usize> {
    choose|choice: Option<usize>| arbiter.is_fair_pick(ready, choice)
}

/// A fair choice always exists.
pub proof fn lemma_fair_pick_exists(arbiter: Arbiter, ready: Seq<bool>)
    requires
        arbiter.wf(),
    ensures
        arbiter.is_fair_pick(ready, fair_pick(arbiter, ready)),
{
    let choice = first_ready(arbiter, ready, 0);
    assert(arbiter.is_fair_pick(ready, choice));
}

/// The first ready source at or behind a distance, found by walking on.
proof fn first_ready(arbiter: Arbiter, ready: Seq<bool>, from: int) -> (choice: Option<usize>)
    requires
        arbiter.wf(),
        0 <= from <= arbiter.sources,
        forall|earlier: int|
            0 <= earlier < from ==> !ready_at(ready, #[trigger] arbiter.source_at(earlier)),
    ensures
        arbiter.is_fair_pick(ready, choice),
    decreases arbiter.sources - from,
{
    if from == arbiter.sources {
        assert forall|other: int| 0 <= other < arbiter.sources implies !#[trigger] ready_at(
            ready,
            other,
        ) by {
            let d = arbiter.distance(other);
            assert(arbiter.source_at(d) == other);
            assert(!ready_at(ready, arbiter.source_at(d)));
        }
        None
    } else {
        let source = arbiter.source_at(from);
        if ready_at(ready, source) {
            assert forall|other: int|
                0 <= other < arbiter.sources && ready_at(ready, other) implies arbiter.distance(
                source,
            ) <= #[trigger] arbiter.distance(other) by {
                let d = arbiter.distance(other);
                assert(arbiter.source_at(d) == other);
                if d < from {
                    assert(!ready_at(ready, arbiter.source_at(d)));
                }
            }
            Some(source as usize)
        } else {
            first_ready(arbiter, ready, from + 1)
        }
    }
}

/// No starvation: a source that is ready in every round is served before
/// as many rounds have passed as there are sources, whatever the other
/// sources do.
pub proof fn lemma_ready_source_is_served(arbiter: Arbiter, rounds: Seq<Seq<bool>>, source: int)
    requires
        arbiter.wf(),
        0 <= source < arbiter.sources,
        rounds.len() == arbiter.sources,
        forall|round: int| 0 <= round < rounds.len() ==> ready_at(#[trigger] rounds[round], source),
    ensures
        exists|round: int|
            0 <= round < rounds.len() && fair_pick(
                after_rounds(arbiter, rounds.take(round)),
                #[trigger] rounds[round],
            ) == Some(source as usize),
{
    lemma_served_or_closer(arbiter, rounds, source, rounds.len() as int);
    let last = after_rounds(arbiter, rounds.take(rounds.len() as int));
    if !exists|round: int|
        0 <= round < rounds.len() && fair_pick(
            after_rounds(arbiter, rounds.take(round)),
            #[trigger] rounds[round],
        ) == Some(source as usize) {
        assert(last.distance(source) >= 0);
        assert(false);
    }
}

/// Through any number of rounds in which the source was ready and not yet
/// served, the arbiter stays sound and the source has moved up once per
/// round.
proof fn lemma_served_or_closer(arbiter: Arbiter, rounds: Seq<Seq<bool>>, source: int, upto: int)
    requires
        arbiter.wf(),
        0 <= source < arbiter.sources,
        0 <= upto <= rounds.len(),
        forall|round: int| 0 <= round < rounds.len() ==> ready_at(#[trigger] rounds[round], source),
    ensures
        (exists|round: int|
            0 <= round < upto && fair_pick(
                after_rounds(arbiter, rounds.take(round)),
                #[trigger] rounds[round],
            ) == Some(source as usize)) || ({
            let reached = after_rounds(arbiter, rounds.take(upto));
            &&& reached.wf()
            &&& reached.sources == arbiter.sources
            &&& 0 <= reached.distance(source) <= arbiter.sources - 1 - upto
        }),
    decreases upto,
{
    if upto == 0 {
        assert(rounds.take(0) =~= Seq::<Seq<bool>>::empty());
    } else {
        lemma_served_or_closer(arbiter, rounds, source, upto - 1);
        let served_before = exists|round: int|
            0 <= round < upto - 1 && fair_pick(
                after_rounds(arbiter, rounds.take(round)),
                #[trigger] rounds[round],
            ) == Some(source as usize);
        if !served_before {
            let before = after_rounds(arbiter, rounds.take(upto - 1));
            let marks = rounds[upto - 1];
            let choice = fair_pick(before, marks);
            lemma_fair_pick_exists(before, marks);
            assert(rounds.take(upto).drop_last() =~= rounds.take(upto - 1));
            assert(rounds.take(upto).last() == marks);
            assert(after_rounds(arbiter, rounds.take(upto)) == before.after(choice));
            if choice != Some(source as usize) {
                lemma_waiting_source_moves_up(before, marks, choice, source);
            }
        }
    }
}

} // verus!
