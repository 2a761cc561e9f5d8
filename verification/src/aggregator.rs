//! The event aggregator: the single owner of the transition counter. Walkers
//! publish content-free move events; everyone else reads the counter only
//! through a query/response round trip, so the counter never sits on the hot
//! walker path.

use vstd::prelude::*;

verus! {

/// A message on the aggregator's inbound channel.
#[derive(Debug, Clone, Copy, PartialEq, Eq)]
pub enum Event {
    /// One accepted move occurred.
    ParticleMoved,
    /// Reply with the current transition total on the response channel.
    AskForTotalTransitions,
    /// Stop consuming and hand the final total back to the owner.
    Quit,
}

/// What the surrounding event loop must do after the aggregator has handled
/// one message.
#[derive(Debug, Clone, Copy, PartialEq, Eq)]
pub enum Action {
    /// Keep consuming; nothing to deliver.
    Continue,
    /// Deliver this counter value on the response channel, then keep
    /// consuming.
    Respond(u64),
    /// Stop consuming and return this final counter value to the owner.
    Stop(u64),
}

/// The number of `ParticleMoved` events in `events` that the aggregator
/// consumes: those arriving strictly before the first `Quit`.
pub open spec fn moves_before_quit(events: Seq<Event>) -> nat
    decreases events.len(),
{
    if events.len() == 0 {
        0
    } else {
        match events.first() {
            Event::Quit => 0,
            Event::ParticleMoved => 1 + moves_before_quit(events.drop_first()),
            Event::AskForTotalTransitions => moves_before_quit(events.drop_first()),
        }
    }
}

/// The answers the aggregator gives to the queries in `events`, in arrival
/// order, when its counter starts at `start`: each answer counts exactly
/// the moves that arrived strictly before that query, and none after.
pub open spec fn query_answers(events: Seq<Event>, start: int) -> Seq<int>
    decreases events.len(),
{
    if events.len() == 0 {
        Seq::empty()
    } else {
        match events.first() {
            Event::Quit => Seq::empty(),
            Event::ParticleMoved => query_answers(events.drop_first(), start + 1),
            Event::AskForTotalTransitions => seq![start].add(
                query_answers(events.drop_first(), start),
            ),
        }
    }
}

/// The answers to successive queries never decrease, and every answer lies
/// between the counter at the start of the stream and the final total.
pub proof fn lemma_query_answers_monotone(events: Seq<Event>, start: int)
    ensures
        forall|i: int, j: int|
            0 <= i <= j < query_answers(events, start).len() ==> query_answers(events, start)[i]
                <= query_answers(events, start)[j],
        forall|i: int|
            0 <= i < query_answers(events, start).len() ==> start <= #[trigger] query_answers(
                events,
                start,
            )[i] <= start + moves_before_quit(events),
    decreases events.len(),
{
    if events.len() > 0 {
        let q = query_answers(events, start);
        match events.first() {
            Event::Quit => {},
            Event::ParticleMoved => {
                lemma_query_answers_monotone(events.drop_first(), start + 1);
                let rest = query_answers(events.drop_first(), start + 1);
                assert(q =~= rest);
                assert(moves_before_quit(events) == 1 + moves_before_quit(events.drop_first()));
                assert(forall|i: int|
                    0 <= i < q.len() ==> start <= #[trigger] q[i] <= start + moves_before_quit(
                        events,
                    ));
            },
            Event::AskForTotalTransitions => {
                lemma_query_answers_monotone(events.drop_first(), start);
                let rest = query_answers(events.drop_first(), start);
                assert(q[0] == start);
                assert(forall|i: int| 1 <= i < q.len() ==> q[i] == rest[i - 1]);
                assert(moves_before_quit(events) == moves_before_quit(events.drop_first()));
                assert(forall|i: int|
                    0 <= i < q.len() ==> start <= #[trigger] q[i] <= start + moves_before_quit(
                        events,
                    ));
                assert(forall|i: int, j: int| 0 <= i <= j < q.len() ==> q[i] <= q[j]);
            },
        }
    }
}

/// Whenever the consumed stream grows, the transition total can only grow
/// with it: the total after any prefix of the arrivals is at most the total
/// after any longer prefix. Since a query is answered with the total of the
/// arrivals enqueued strictly before it, the answers to successive queries
/// never decrease.
pub proof fn lemma_counter_monotone(events: Seq<Event>, i: int, j: int)
    requires
        0 <= i <= j <= events.len(),
    ensures
        moves_before_quit(events.take(i)) <= moves_before_quit(events.take(j)),
    decreases i,
{
    if i > 0 {
        assert(events.take(i).first() == events.first());
        assert(events.take(j).first() == events.first());
        assert(events.take(i).drop_first() =~= events.drop_first().take(i - 1));
        assert(events.take(j).drop_first() =~= events.drop_first().take(j - 1));
        lemma_counter_monotone(events.drop_first(), i - 1, j - 1);
    }
}

/// Shutdown consistency: the final total the aggregator returns — the total
/// over the whole arrival stream — is at least the answer to any query
/// enqueued earlier in the run.
pub proof fn lemma_final_count_dominates(events: Seq<Event>, i: int)
    requires
        0 <= i <= events.len(),
    ensures
        moves_before_quit(events.take(i)) <= moves_before_quit(events),
{
    lemma_counter_monotone(events, i, events.len() as int);
    assert(events.take(events.len() as int) =~= events);
}

/// The aggregator's whole state: one monotonically non-decreasing 64-bit
/// transition counter, exclusively owned here.
pub struct Aggregator {
    transitions: u64,
}

impl Aggregator {
    /// The current transition total.
    pub closed spec fn transitions(&self) -> u64 {
        self.transitions
    }

    /// Hands the final counter value back to the aggregator's owner once
    /// consumption has stopped.
    pub fn into_total(self) -> (r: u64)
        ensures
            r == self.transitions(),
    {
        self.transitions
    }

    /// A fresh aggregator whose counter starts at zero.
    pub fn new() -> (r: Aggregator)
        ensures
            r.transitions() == 0,
    {
        Aggregator { transitions: 0 }
    }

    /// Consumes one message in arrival order: a move increments the counter
    /// by one, a query asks the loop to deliver the current total, and a
    /// quit asks it to stop with the final total. The counter never
    /// decreases, and only a move changes it.
    pub fn handle(&mut self, event: Event) -> (action: Action)
        requires
            event is ParticleMoved ==> old(self).transitions() < u64::MAX,
        ensures
            final(self).transitions() >= old(self).transitions(),
            event is ParticleMoved ==> final(self).transitions() == old(self).transitions() + 1
                && action is Continue,
            event is AskForTotalTransitions ==> final(self).transitions() == old(
                self,
            ).transitions() && action == Action::Respond(old(self).transitions()),
            event is Quit ==> final(self).transitions() == old(self).transitions()
                && action == Action::Stop(old(self).transitions()),
    {
        match event {
            Event::ParticleMoved => {
                self.transitions = self.transitions + 1;
                Action::Continue
            },
            Event::AskForTotalTransitions => Action::Respond(self.transitions),
            Event::Quit => Action::Stop(self.transitions),
        }
    }
}

/// Consumes a whole arrival stream in order, as the aggregator's event loop
/// does. Returns the final transition total — the number of moves that
/// arrived strictly before the first quit (or in the whole stream, when no
/// quit arrives and the channel simply closes) — together with the answer
/// delivered for each query, in order: each answer counts exactly the moves
/// enqueued strictly before that query.
pub fn process_events(events: &Vec<Event>) -> (r: (u64, Vec<u64>))
    requires
        moves_before_quit(events@) <= u64::MAX,
    ensures
        r.0 == moves_before_quit(events@),
        r.1@.map_values(|v: u64| v as int) == query_answers(events@, 0),
{
    let mut agg = Aggregator::new();
    let mut answers: Vec<u64> = Vec::new();
    let mut i: usize = 0;
    proof {
        assert(events@.skip(0) =~= events@);
    }
    while i < events.len()
        invariant
            i <= events@.len(),
            agg.transitions() + moves_before_quit(events@.skip(i as int)) == moves_before_quit(
                events@,
            ),
            moves_before_quit(events@) <= u64::MAX,
            answers@.map_values(|v: u64| v as int).add(
                query_answers(events@.skip(i as int), agg.transitions() as int),
            ) == query_answers(events@, 0),
        decreases events@.len() - i,
    {
        proof {
            assert(events@.skip(i as int).first() == events@[i as int]);
            assert(events@.skip(i as int).drop_first() =~= events@.skip(i + 1 as int));
        }
        let event = events[i];
        let ghost pre_map = answers@.map_values(|v: u64| v as int);
        match agg.handle(event) {
            Action::Stop(total) => {
                proof {
                    assert(pre_map.add(Seq::<int>::empty()) =~= pre_map);
                }
                return (total, answers);
            },
            Action::Respond(total) => {
                answers.push(total);
                proof {
                    assert(answers@.map_values(|v: u64| v as int) =~= pre_map.push(
                        total as int,
                    ));
                    assert(pre_map.push(total as int).add(
                        query_answers(events@.skip(i + 1 as int), total as int),
                    ) =~= pre_map.add(
                        seq![total as int].add(
                            query_answers(events@.skip(i + 1 as int), total as int),
                        ),
                    ));
                }
            },
            Action::Continue => {},
        }
        i = i + 1;
    }
    proof {
        assert(events@.skip(events@.len() as int) =~= Seq::<Event>::empty());
        assert(answers@.map_values(|v: u64| v as int).add(Seq::<int>::empty()) =~= answers@
            .map_values(|v: u64| v as int));
    }
    (agg.into_total(), answers)
}

} // verus!
