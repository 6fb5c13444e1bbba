//! The order in which the event loop looks at its sources.
//!
//! Each turn of the loop polls the sources from the most urgent to the least
//! and takes the first that has something: a later source is looked at only
//! where every source before it had nothing. The order is fixed, and it is
//! not fair: a source that always has something keeps the ones behind it
//! waiting.
//!
//! The loop does the polling; [`next_step`] tells it, from what the sources
//! polled so far gave, which source to poll next, or which source has the
//! turn.

use vstd::prelude::*;

verus! {

/// A source of events, most urgent first.
#[derive(Clone, Copy, Debug, PartialEq, Eq, Structural, Hash)]
pub enum Source {
    /// Changes of the system's DNS resolvers.
    DnsNotifier,
    /// Changes of the network.
    NetworkNotifier,
    /// Messages of the tunnel service.
    ServiceIpc,
    /// Requests of the presentation layer.
    Requests,
    /// Reports of the update check.
    Updates,
    /// Newly launched instances of the application.
    NewInstances,
}

/// How many sources there are.
pub const SOURCES: u8 = 6;

/// What polling a source gave.
#[derive(Clone, Copy, Debug, PartialEq, Eq, Structural, Hash)]
pub enum Readiness {
    /// Nothing yet.
    Pending,
    /// An item.
    Item,
    /// Nothing ever again: the source is closed.
    Closed,
}

impl Source {
    /// The place of the source in the order, 0 for the most urgent.
    pub open spec fn spec_priority(self) -> u8 {
        match self {
            Source::DnsNotifier => 0,
            Source::NetworkNotifier => 1,
            Source::ServiceIpc => 2,
            Source::Requests => 3,
            Source::Updates => 4,
            Source::NewInstances => 5,
        }
    }

    /// The place of the source in the order, 0 for the most urgent.
    #[verifier::when_used_as_spec(spec_priority)]
    pub fn priority(self) -> (priority: u8)
        ensures
            priority == self.spec_priority(),
            priority < SOURCES,
    {
        match self {
            Source::DnsNotifier => 0,
            Source::NetworkNotifier => 1,
            Source::ServiceIpc => 2,
            Source::Requests => 3,
            Source::Updates => 4,
            Source::NewInstances => 5,
        }
    }

    /// The source at a place of the order; none from `SOURCES` on.
    pub open spec fn spec_at(priority: u8) -> Option<Source> {
        match priority {
            0 => Some(Source::DnsNotifier),
            1 => Some(Source::NetworkNotifier),
            2 => Some(Source::ServiceIpc),
            3 => Some(Source::Requests),
            4 => Some(Source::Updates),
            5 => Some(Source::NewInstances),
            _ => None,
        }
    }

    /// The source at a place of the order; none from `SOURCES` on.
    #[verifier::when_used_as_spec(spec_at)]
    pub fn at(priority: u8) -> (source: Option<Source>)
        ensures
            source == Source::spec_at(priority),
            priority < SOURCES ==> source is Some && source->0.priority() == priority,
            priority >= SOURCES ==> source is None,
    {
        match priority {
            0 => Some(Source::DnsNotifier),
            1 => Some(Source::NetworkNotifier),
            2 => Some(Source::ServiceIpc),
            3 => Some(Source::Requests),
            4 => Some(Source::Updates),
            5 => Some(Source::NewInstances),
            _ => None,
        }
    }

    /// Whether the source takes the turn with what polling it gave. An item
    /// always does. That a source is closed does too, since the loop has to
    /// end on it, but for the two notifiers: a notifier that has closed is
    /// passed over.
    pub open spec fn spec_takes_turn(self, readiness: Readiness) -> bool {
        match readiness {
            Readiness::Pending => false,
            Readiness::Item => true,
            Readiness::Closed => self != Source::DnsNotifier && self != Source::NetworkNotifier,
        }
    }

    /// Whether the source takes the turn with what polling it gave.
    #[verifier::when_used_as_spec(spec_takes_turn)]
    pub fn takes_turn(self, readiness: Readiness) -> (taken: bool)
        ensures
            taken == self.spec_takes_turn(readiness),
    {
        match readiness {
            Readiness::Pending => false,
            Readiness::Item => true,
            Readiness::Closed => match self {
                Source::DnsNotifier | Source::NetworkNotifier => false,
                _ => true,
            },
        }
    }
}

/// Whether the source at `place` takes the turn with what polling it gave.
pub open spec fn taken_at(place: int, readiness: Readiness) -> bool {
    0 <= place < SOURCES && Source::spec_at(place as u8)->0.takes_turn(readiness)
}

/// Whether `source` wins the turn: it takes it, and no source before it
/// does. `polls[p]` is what the source at place `p` gave.
pub open spec fn wins(polls: Seq<Readiness>, source: Source) -> bool {
    &&& source.takes_turn(polls[source.priority() as int])
    &&& forall|place: int| 0 <= place < source.priority() ==> !taken_at(place, #[trigger] polls[place])
}

/// Whether none of the sources that were polled takes the turn.
pub open spec fn none_taken(seen: Seq<Readiness>) -> bool {
    forall|place: int| 0 <= place < seen.len() ==> !taken_at(place, #[trigger] seen[place])
}

/// What the event loop does next within one turn.
#[derive(Clone, Copy, Debug, PartialEq, Eq, Structural)]
pub enum PollStep {
    /// Poll this source, and no other.
    Poll(Source),
    /// This source takes the turn, with what it gave. No other source is
    /// polled in this turn, so every other source keeps what it has.
    Take(Source),
    /// No source has anything: wait until one is woken.
    Wait,
}

/// Whether `step` is what follows after the sources at the places
/// `0..seen.len()` were polled and gave `seen`.
///
/// The first source that takes the turn has it. While none does, the source
/// at the next place is polled: a source is polled only where every source
/// before it had nothing. Once all were polled in vain, the loop waits.
pub open spec fn follows(seen: Seq<Readiness>, step: PollStep) -> bool {
    match step {
        PollStep::Take(source) => source.priority() < seen.len() && wins(seen, source),
        PollStep::Poll(source) => source.priority() == seen.len() && none_taken(seen),
        PollStep::Wait => seen.len() >= SOURCES && none_taken(seen),
    }
}

/// What the event loop does next within one turn, after the sources at the
/// places `0..seen.len()` were polled, in order, and gave `seen`. A turn
/// starts with nothing seen.
pub fn next_step(seen: &Vec<Readiness>) -> (step: PollStep)
    ensures
        follows(seen@, step),
{
    let mut place: u8 = 0;
    while place < SOURCES && (place as usize) < seen.len()
        invariant
            place <= SOURCES,
            place <= seen@.len(),
            forall|earlier: int| 0 <= earlier < place ==> !taken_at(earlier, #[trigger] seen@[earlier]),
        decreases SOURCES - place,
    {
        match Source::at(place) {
            Some(source) => {
                if source.takes_turn(seen[place as usize]) {
                    return PollStep::Take(source);
                }
            },
            None => {},
        }
        place += 1;
    }
    match Source::at(place) {
        Some(source) => PollStep::Poll(source),
        None => PollStep::Wait,
    }
}

/// After what was seen, one step follows and no other.
pub proof fn one_step_follows(seen: Seq<Readiness>, a: PollStep, b: PollStep)
    requires
        follows(seen, a),
        follows(seen, b),
    ensures
        a == b,
{
    match (a, b) {
        (PollStep::Take(x), PollStep::Take(y)) => {
            winner_is_unique(seen, x, y);
        },
        (PollStep::Take(x), _) => {
            assert(taken_at(x.priority() as int, seen[x.priority() as int]));
        },
        (_, PollStep::Take(y)) => {
            assert(taken_at(y.priority() as int, seen[y.priority() as int]));
        },
        (PollStep::Poll(x), PollStep::Poll(y)) => {
            priority_is_one_to_one(x, y);
        },
        _ => {},
    }
}

/// A turn in which the sources are polled as `next_step` says ends after
/// at most `SOURCES` polls: with everything polled, nothing is polled
/// again.
pub proof fn a_turn_polls_each_source_once_at_most(seen: Seq<Readiness>, source: Source)
    requires
        follows(seen, PollStep::Poll(source)),
    ensures
        seen.len() < SOURCES,
        Source::spec_at(seen.len() as u8) == Some(source),
{
}

/// No two sources share a place in the order.
pub proof fn priority_is_one_to_one(a: Source, b: Source)
    requires
        a.priority() == b.priority(),
    ensures
        a == b,
{
}

/// At most one source wins a turn.
pub proof fn winner_is_unique(polls: Seq<Readiness>, a: Source, b: Source)
    requires
        wins(polls, a),
        wins(polls, b),
    ensures
        a == b,
{
    if a.priority() < b.priority() {
        assert(taken_at(a.priority() as int, polls[a.priority() as int]));
    } else if b.priority() < a.priority() {
        assert(taken_at(b.priority() as int, polls[b.priority() as int]));
    } else {
        priority_is_one_to_one(a, b);
    }
}

} // verus!
