//! The dispatch loop: once a minute it classifies the instant, goes through
//! the subscriptions, and has a message sent to every destination that is
//! due one.
//!
//! The loop is a state machine. The caller does the outside work: it
//! fetches the subscriptions, sends a message, writes a record and sleeps,
//! each when the machine asks for it, and hands the outcome back as an event.

use vstd::prelude::*;
use crate::clock::{nanos_to_next_minute, LocalInstant};
use crate::daytype::{DateConversionReturn, DayType};
use crate::policy::{fits, should_suppress, suppressed_by, RandSource, Recorded, SkipOdds};
use crate::subscription::{is_for, Subscription, SubscriptionDoc};

verus! {

/// The colour of the messages that are sent.
pub const EMBED_COLOUR: u32 = 0xFFFFFF;

/// What happened outside since the loop last asked for something.
#[derive(Debug, PartialEq, Eq)]
pub enum LoopEvent {
    /// The loop woke at this instant.
    Woke(LocalInstant),
    /// The store handed out every subscription, or failed to.
    Fetched(Option<Vec<SubscriptionDoc>>),
    /// The message went out, or did not.
    Sent(bool),
    /// The store wrote the record (`Some(true)`), held no record under the
    /// key (`Some(false)`), or failed (`None`).
    Updated(Option<bool>),
}

/// What the loop asks the caller to do next.
#[derive(Debug, PartialEq, Eq)]
pub enum LoopAction {
    /// Fetch every subscription from the store; answer with `Fetched`.
    Fetch,
    /// Send a message with this title and colour to the channel; answer
    /// with `Sent`.
    Send { channel: u64, title: String, colour: u32 },
    /// Write the record in place of the one that the store holds under the
    /// key; answer with `Updated`.
    Update { id: u128, record: Subscription },
    /// Sleep for so many nanoseconds; answer with `Woke`.
    Sleep { nanoseconds: u64 },
}

/// An action, with the title as the text that it is.
pub enum LoopActionView {
    Fetch,
    Send { channel: u64, title: Seq<char>, colour: u32 },
    Update { id: u128, record: Subscription },
    Sleep { nanoseconds: u64 },
}

impl View for LoopAction {
    type V = LoopActionView;

    open spec fn view(&self) -> LoopActionView {
        match self {
            LoopAction::Fetch => LoopActionView::Fetch,
            LoopAction::Send { channel, title, colour } => LoopActionView::Send {
                channel: *channel,
                title: title@,
                colour: *colour,
            },
            LoopAction::Update { id, record } => LoopActionView::Update { id: *id, record: *record },
            LoopAction::Sleep { nanoseconds } => LoopActionView::Sleep { nanoseconds: *nanoseconds },
        }
    }
}

/// The subscriptions of one tick and how far the loop has come with them.
struct Round {
    current: DateConversionReturn<DayType>,
    sleep_for: u64,
    queue: Vec<SubscriptionDoc>,
    at: usize,
}

enum Phase {
    Asleep,
    Fetching { current: Option<DateConversionReturn<DayType>>, sleep_for: u64 },
    Sending(Round),
    Updating(Round),
}

/// Where the loop stands.
pub enum LoopView {
    /// Between two ticks: the loop waits to wake.
    Asleep,
    /// The instant was classified and the fetch is under way.
    Fetching { classified: Option<DateConversionReturn<DayType>>, sleep_for: u64 },
    /// A message for the subscription `queue[at]` is under way.
    Sending {
        current: DateConversionReturn<DayType>,
        sleep_for: u64,
        queue: Seq<SubscriptionDoc>,
        at: int,
    },
    /// The new record of the subscription `queue[at]` is under way.
    Updating {
        current: DateConversionReturn<DayType>,
        sleep_for: u64,
        queue: Seq<SubscriptionDoc>,
        at: int,
    },
}

impl LoopView {
    /// Whether the state is one that the loop can be in: while a message
    /// or a record is under way, `at` is an index of the queue.
    pub open spec fn well_formed(self) -> bool {
        match self {
            LoopView::Sending { queue, at, .. } => 0 <= at < queue.len(),
            LoopView::Updating { queue, at, .. } => 0 <= at < queue.len(),
            _ => true,
        }
    }
}

/// The state of the dispatch loop.
pub struct DispatchLoop {
    phase: Phase,
}

/// Whether the policy may hold the subscription back at the moment
/// `current`: it was served with the moment already, or some sample that
/// agrees with the odds holds it back.
pub open spec fn can_hold_back(
    current: DateConversionReturn<DayType>,
    subscription: SubscriptionDoc,
) -> bool {
    subscription.served(current.data) || exists|skip_drawn: bool|
        fits(current.odds_to_skip, skip_drawn) && #[trigger] suppressed_by(
            current.last_possible,
            false,
            skip_drawn,
        )
}

/// Whether the policy may let a message go to the subscription at the
/// moment `current`: it was not served with the moment yet, and some
/// sample that agrees with the odds does not hold it back.
pub open spec fn can_deliver(
    current: DateConversionReturn<DayType>,
    subscription: SubscriptionDoc,
) -> bool {
    !subscription.served(current.data) && exists|skip_drawn: bool|
        fits(current.odds_to_skip, skip_drawn) && !#[trigger] suppressed_by(
            current.last_possible,
            false,
            skip_drawn,
        )
}

/// Whether going through `queue` from the index `from` may end at `found`:
/// at a subscription that the policy may deliver to, past none that it must
/// deliver to; or at the end of the queue, past none that it must deliver to.
pub open spec fn may_pick(
    current: DateConversionReturn<DayType>,
    queue: Seq<SubscriptionDoc>,
    from: int,
    found: Option<int>,
) -> bool {
    match found {
        Some(at) => {
            &&& 0 <= at
            &&& from <= at < queue.len()
            &&& can_deliver(current, queue[at])
            &&& forall|i: int| from <= i < at ==> can_hold_back(current, #[trigger] queue[i])
        },
        None => forall|i: int|
            from <= i < queue.len() ==> can_hold_back(current, #[trigger] queue[i]),
    }
}

/// What follows once the loop has gone through the queue as far as `found`:
/// a message to the subscription found, or sleep where none was.
pub open spec fn resume(
    current: DateConversionReturn<DayType>,
    sleep_for: u64,
    queue: Seq<SubscriptionDoc>,
    found: Option<int>,
) -> (LoopView, LoopActionView) {
    match found {
        Some(at) => (
            LoopView::Sending { current, sleep_for, queue, at },
            LoopActionView::Send {
                channel: queue[at].data.channel,
                title: current.data.display_text(),
                colour: EMBED_COLOUR,
            },
        ),
        None => (LoopView::Asleep, LoopActionView::Sleep { nanoseconds: sleep_for }),
    }
}

/// Where the loop goes through the queue in answer to the event: the
/// moment, the queue, and the index that it starts from.
pub open spec fn scan(state: LoopView, event: LoopEvent) -> Option<
    (DateConversionReturn<DayType>, Seq<SubscriptionDoc>, int),
> {
    match (state, event) {
        (
            LoopView::Fetching { classified: Some(current), .. },
            LoopEvent::Fetched(Some(queue)),
        ) => Some((current, queue@, 0)),
        (LoopView::Sending { current, queue, at, .. }, LoopEvent::Sent(false)) => Some(
            (current, queue, at + 1),
        ),
        (LoopView::Updating { current, queue, at, .. }, LoopEvent::Updated(_)) => Some(
            (current, queue, at + 1),
        ),
        _ => None,
    }
}

/// The state and the action that follow an event, where going through the
/// queue, if the loop does so, ends at `found`; or nothing, where the event
/// does not answer what the loop asked for last.
///
/// Awake, the loop classifies the instant, works out how long to sleep
/// afterwards, and asks for the subscriptions. With them it goes through
/// the queue, unless the instant was no moment or the fetch failed: then it
/// sleeps. After a message that went out it asks for the record to be
/// written; after one that did not, and after the answer to a write,
/// whatever that is, it goes on through the queue.
pub open spec fn step(state: LoopView, event: LoopEvent, found: Option<int>) -> Option<
    (LoopView, LoopActionView),
> {
    match (state, event) {
        (LoopView::Asleep, LoopEvent::Woke(now)) => Some(
            (
                LoopView::Fetching {
                    classified: match DayType::parse(
                        now.spec_weekday(),
                        now.spec_hour() as int,
                        now.spec_minute() as int,
                    ) {
                        Ok(current) => Some(current),
                        Err(_) => None,
                    },
                    sleep_for: nanos_to_next_minute(
                        now.spec_second() as int,
                        now.spec_nanosecond() as int,
                    ) as u64,
                },
                LoopActionView::Fetch,
            ),
        ),
        (
            LoopView::Fetching { classified: Some(current), sleep_for },
            LoopEvent::Fetched(Some(queue)),
        ) => Some(resume(current, sleep_for, queue@, found)),
        (LoopView::Fetching { sleep_for, .. }, LoopEvent::Fetched(_)) => Some(
            (LoopView::Asleep, LoopActionView::Sleep { nanoseconds: sleep_for }),
        ),
        (LoopView::Sending { current, sleep_for, queue, at }, LoopEvent::Sent(true)) => Some(
            (
                LoopView::Updating { current, sleep_for, queue, at },
                LoopActionView::Update {
                    id: queue[at].id,
                    record: Subscription {
                        guild: queue[at].data.guild,
                        channel: queue[at].data.channel,
                        last_message: Some(current.data),
                    },
                },
            ),
        ),
        (LoopView::Sending { current, sleep_for, queue, .. }, LoopEvent::Sent(false)) => Some(
            resume(current, sleep_for, queue, found),
        ),
        (LoopView::Updating { current, sleep_for, queue, .. }, LoopEvent::Updated(_)) => Some(
            resume(current, sleep_for, queue, found),
        ),
        _ => None,
    }
}

/// Whether the loop, in answer to the event, may come as far as `found`:
/// where it goes through the queue, as `may_pick` says; where it does not,
/// `found` is nothing.
pub open spec fn may_find(state: LoopView, event: LoopEvent, found: Option<int>) -> bool {
    match scan(state, event) {
        Some((current, queue, from)) => may_pick(current, queue, from, found),
        None => found is None,
    }
}

/// Whether going through `queue` from the index `from`, with exactly the
/// samples `drawn` in turn, ends at `found`.
///
/// A subscription that was served with the moment already is passed over
/// and takes no sample. Each other takes one sample, drawn with the odds
/// of the moment; where that holds the delivery back, the loop goes on to
/// the next subscription, and where it does not, the loop ends there. At
/// the end of the queue nothing is found.
pub open spec fn goes(
    current: DateConversionReturn<DayType>,
    queue: Seq<SubscriptionDoc>,
    from: int,
    drawn: Seq<(SkipOdds, bool)>,
    found: Option<int>,
) -> bool
    decreases queue.len() - from,
{
    if 0 <= from < queue.len() {
        if queue[from].served(current.data) {
            goes(current, queue, from + 1, drawn, found)
        } else {
            &&& drawn.len() > 0
            &&& drawn[0].0 == current.odds_to_skip
            &&& fits(drawn[0].0, drawn[0].1)
            &&& if suppressed_by(current.last_possible, false, drawn[0].1) {
                goes(current, queue, from + 1, drawn.skip(1), found)
            } else {
                found == Some(from) && drawn.len() == 1
            }
        }
    } else {
        found is None && drawn.len() == 0
    }
}

/// Whether the loop, in answer to the event and with exactly the samples
/// `drawn`, comes as far as `found`: where it goes through the queue, as
/// `goes` says; where it does not, it draws nothing and finds nothing.
pub open spec fn finds(
    state: LoopView,
    event: LoopEvent,
    drawn: Seq<(SkipOdds, bool)>,
    found: Option<int>,
) -> bool {
    match scan(state, event) {
        Some((current, queue, from)) => goes(current, queue, from, drawn, found),
        None => found is None && drawn.len() == 0,
    }
}

/// The samples that a source has given more than it had before.
pub open spec fn drawn_since(before: Seq<(SkipOdds, bool)>, after: Seq<(SkipOdds, bool)>) -> Seq<
    (SkipOdds, bool),
> {
    after.skip(before.len() as int)
}

/// Whether a source that had given `before` has only given more since.
pub open spec fn extends(before: Seq<(SkipOdds, bool)>, after: Seq<(SkipOdds, bool)>) -> bool {
    before.len() <= after.len() && after.take(before.len() as int) == before
}

/// Going through a queue as `goes` says ends where `may_pick` allows.
pub proof fn lemma_goes_where_it_may(
    current: DateConversionReturn<DayType>,
    queue: Seq<SubscriptionDoc>,
    from: int,
    drawn: Seq<(SkipOdds, bool)>,
    found: Option<int>,
)
    requires
        0 <= from,
        goes(current, queue, from, drawn, found),
    ensures
        may_pick(current, queue, from, found),
    decreases queue.len() - from,
{
    if from < queue.len() {
        if queue[from].served(current.data) {
            lemma_goes_where_it_may(current, queue, from + 1, drawn, found);
        } else if suppressed_by(current.last_possible, false, drawn[0].1) {
            lemma_goes_where_it_may(current, queue, from + 1, drawn.skip(1), found);
            assert(can_hold_back(current, queue[from]));
        } else {
            assert(!suppressed_by(current.last_possible, false, drawn[0].1));
            assert(can_deliver(current, queue[from]));
        }
    }
}

/// Whether every subscription of `queue` from the index `from` on was
/// served with the moment already.
pub open spec fn all_served(
    current: DateConversionReturn<DayType>,
    queue: Seq<SubscriptionDoc>,
    from: int,
) -> bool {
    forall|i: int| from <= i < queue.len() ==> (#[trigger] queue[i]).served(current.data)
}

/// Whether the loop, in answer to the event, has nothing to draw a sample
/// for: it does not go through the queue, or every subscription that it
/// goes through was served with the moment already.
pub open spec fn draws_nothing(state: LoopView, event: LoopEvent) -> bool {
    match scan(state, event) {
        Some((current, queue, from)) => all_served(current, queue, from),
        None => true,
    }
}

/// Goes through `queue` from the index `from` and stops at the first
/// subscription that gets a message. A subscription that was served with
/// the moment already is passed over, and the source is not asked for it;
/// for each other, the policy draws one sample with the odds of the moment.
/// Where the loop ends follows from the samples that the source gave, as
/// `goes` says. The source stays as it was where all were served.
pub fn next_delivery<R: RandSource>(
    current: &DateConversionReturn<DayType>,
    queue: &Vec<SubscriptionDoc>,
    from: usize,
    rand_source: &mut Recorded<R>,
) -> (found: Option<usize>)
    ensures
        extends(old(rand_source).given(), final(rand_source).given()),
        goes(
            *current,
            queue@,
            from as int,
            drawn_since(old(rand_source).given(), final(rand_source).given()),
            match found {
                Some(at) => Some(at as int),
                None => None,
            },
        ),
        may_pick(
            *current,
            queue@,
            from as int,
            match found {
                Some(at) => Some(at as int),
                None => None,
            },
        ),
        all_served(*current, queue@, from as int) ==> *final(rand_source) == *old(rand_source),
{
    let ghost before = rand_source.given();
    let mut i: usize = from;
    proof {
        assert(before.take(before.len() as int) =~= before);
        assert(drawn_since(before, rand_source.given()) =~= Seq::empty());
        assert forall|rest: Seq<(SkipOdds, bool)>, found: Option<int>| #[trigger]
            goes(*current, queue@, i as int, rest, found) implies goes(
            *current,
            queue@,
            from as int,
            drawn_since(before, rand_source.given()) + rest,
            found,
        ) by {
            assert(Seq::<(SkipOdds, bool)>::empty() + rest =~= rest);
        }
    }
    while i < queue.len()
        invariant
            from <= i,
            i == from || i <= queue.len(),
            before == old(rand_source).given(),
            extends(before, rand_source.given()),
            forall|rest: Seq<(SkipOdds, bool)>, found: Option<int>| #[trigger]
                goes(*current, queue@, i as int, rest, found) ==> goes(
                    *current,
                    queue@,
                    from as int,
                    drawn_since(before, rand_source.given()) + rest,
                    found,
                ),
            all_served(*current, queue@, from as int) ==> *rand_source == *old(rand_source),
        decreases queue.len() - i,
    {
        let ghost so_far = drawn_since(before, rand_source.given());
        let served = queue[i].is_served(current.data);
        let suppress = should_suppress(
            current.odds_to_skip,
            current.last_possible,
            served,
            rand_source,
        );
        let ghost now = drawn_since(before, rand_source.given());
        proof {
            if served {
                assert(now == so_far);
            } else {
                let sample = rand_source.given().last();
                assert(now =~= so_far.push(sample));
                assert(rand_source.given().take(before.len() as int) =~= before);
            }
        }
        if !suppress {
            proof {
                let sample = rand_source.given().last();
                let rest = seq![sample];
                assert(rest.skip(1) =~= Seq::empty());
                assert(goes(*current, queue@, i as int, rest, Some(i as int)));
                assert(so_far + rest =~= now);
                lemma_goes_where_it_may(*current, queue@, from as int, now, Some(i as int));
            }
            return Some(i);
        }
        proof {
            assert forall|rest: Seq<(SkipOdds, bool)>, found: Option<int>| #[trigger]
                goes(*current, queue@, i as int + 1, rest, found) implies goes(
                *current,
                queue@,
                from as int,
                now + rest,
                found,
            ) by {
                if served {
                    assert(goes(*current, queue@, i as int, rest, found));
                } else {
                    let sample = rand_source.given().last();
                    let longer = seq![sample] + rest;
                    assert(longer.skip(1) =~= rest);
                    assert(goes(*current, queue@, i as int, longer, found));
                    assert(so_far + longer =~= now + rest);
                }
            }
        }
        i += 1;
    }
    proof {
        let rest = Seq::<(SkipOdds, bool)>::empty();
        assert(goes(*current, queue@, i as int, rest, None));
        assert(drawn_since(before, rand_source.given()) + rest =~= drawn_since(
            before,
            rand_source.given(),
        ));
        lemma_goes_where_it_may(
            *current,
            queue@,
            from as int,
            drawn_since(before, rand_source.given()),
            None,
        );
    }
    None
}

impl Round {
    spec fn wf(self) -> bool {
        self.at < self.queue.len()
    }

    /// Goes through the rest of the queue and says what follows.
    fn resume<R: RandSource>(self, from: usize, rand_source: &mut Recorded<R>) -> (next: (
        DispatchLoop,
        LoopAction,
    ))
        ensures
            all_served(self.current, self.queue@, from as int) ==> *final(rand_source) == *old(
                rand_source,
            ),
            extends(old(rand_source).given(), final(rand_source).given()),
            exists|found: Option<int>|
                {
                    &&& goes(
                        self.current,
                        self.queue@,
                        from as int,
                        drawn_since(old(rand_source).given(), final(rand_source).given()),
                        found,
                    )
                    &&& may_pick(self.current, self.queue@, from as int, found)
                    &&& (next.0@, next.1@) == #[trigger] resume(
                        self.current,
                        self.sleep_for,
                        self.queue@,
                        found,
                    )
                },
    {
        let Round { current, sleep_for, queue, at: _ } = self;
        match next_delivery(&current, &queue, from, rand_source) {
            Some(at) => {
                let action = LoopAction::Send {
                    channel: queue[at].channel(),
                    title: current.data.to_text(),
                    colour: EMBED_COLOUR,
                };
                let next = DispatchLoop {
                    phase: Phase::Sending(Round { current, sleep_for, queue, at }),
                };
                assert((next@, action@) == resume(current, sleep_for, queue@, Some(at as int)));
                (next, action)
            },
            None => {
                let next = DispatchLoop { phase: Phase::Asleep };
                let action = LoopAction::Sleep { nanoseconds: sleep_for };
                assert((next@, action@) == resume(current, sleep_for, queue@, None));
                (next, action)
            },
        }
    }
}

impl View for DispatchLoop {
    type V = LoopView;

    closed spec fn view(&self) -> LoopView {
        match self.phase {
            Phase::Asleep => LoopView::Asleep,
            Phase::Fetching { current, sleep_for } => LoopView::Fetching {
                classified: current,
                sleep_for,
            },
            Phase::Sending(round) => LoopView::Sending {
                current: round.current,
                sleep_for: round.sleep_for,
                queue: round.queue@,
                at: round.at as int,
            },
            Phase::Updating(round) => LoopView::Updating {
                current: round.current,
                sleep_for: round.sleep_for,
                queue: round.queue@,
                at: round.at as int,
            },
        }
    }
}

impl DispatchLoop {
    #[verifier::type_invariant]
    closed spec fn wf(self) -> bool {
        match self.phase {
            Phase::Sending(round) => round.wf(),
            Phase::Updating(round) => round.wf(),
            _ => true,
        }
    }

    /// The loop before its first tick: it waits to wake.
    pub fn new() -> (state: DispatchLoop)
        ensures
            state@ == LoopView::Asleep,
    {
        DispatchLoop { phase: Phase::Asleep }
    }
}

/// One step of the dispatch loop. An event that answers what the loop asked
/// for last moves the loop on and yields the next thing to do, as `step`
/// says. Any other event is refused: the state stays and nothing is to be
/// done for it. Where the loop goes through the queue it draws its samples
/// from `rand_source`, one with the odds of the moment for each
/// subscription that was not served yet, and where it ends follows from
/// the samples drawn, as `finds` says. Where it has nothing to draw a
/// sample for, the source stays as it was.
pub fn message_task<R: RandSource>(
    state: DispatchLoop,
    event: LoopEvent,
    rand_source: &mut Recorded<R>,
) -> (next: (DispatchLoop, Option<LoopAction>))
    ensures
        state@.well_formed(),
        next.0@.well_formed(),
        extends(old(rand_source).given(), final(rand_source).given()),
        exists|found: Option<int>|
            {
                &&& finds(
                    state@,
                    event,
                    drawn_since(old(rand_source).given(), final(rand_source).given()),
                    found,
                )
                &&& may_find(state@, event, found)
                &&& match #[trigger] step(state@, event, found) {
                    Some((after, action)) => {
                        &&& next.0@ == after
                        &&& next.1 matches Some(asked)
                        &&& asked@ == action
                    },
                    None => next.0@ == state@ && next.1 is None,
                }
            },
        draws_nothing(state@, event) ==> *final(rand_source) == *old(rand_source),
{
    let ghost given = rand_source.given();
    assert(drawn_since(given, given) =~= Seq::empty());
    assert(given.take(given.len() as int) =~= given);
    proof {
        use_type_invariant(&state);
    }
    let ghost before = state@;
    let (round, from): (Round, usize) = match (state.phase, event) {
        (Phase::Asleep, LoopEvent::Woke(now)) => {
            let sleep_for = now.until_next_minute();
            let current = match DayType::try_parse_from_date(&now) {
                Ok(current) => Some(current),
                Err(_) => None,
            };
            let next = DispatchLoop { phase: Phase::Fetching { current, sleep_for } };
            let action = LoopAction::Fetch;
            assert(finds(before, event, drawn_since(given, given), None));
            assert(may_find(before, event, None));
            assert(step(before, event, None) == Some((next@, action@)));
            return (next, Some(action));
        },
        (Phase::Fetching { current: Some(current), sleep_for }, LoopEvent::Fetched(Some(queue))) => {
            (Round { current, sleep_for, queue, at: 0 }, 0)
        },
        (Phase::Fetching { current, sleep_for }, LoopEvent::Fetched(_)) => {
            let next = DispatchLoop { phase: Phase::Asleep };
            let action = LoopAction::Sleep { nanoseconds: sleep_for };
            assert(finds(before, event, drawn_since(given, given), None));
            assert(may_find(before, event, None));
            assert(step(before, event, None) == Some((next@, action@)));
            return (next, Some(action));
        },
        (Phase::Sending(round), LoopEvent::Sent(true)) => {
            let action = LoopAction::Update {
                id: round.queue[round.at].id(),
                record: round.queue[round.at].update(Some(round.current.data)),
            };
            let next = DispatchLoop { phase: Phase::Updating(round) };
            assert(finds(before, event, drawn_since(given, given), None));
            assert(may_find(before, event, None));
            assert(step(before, event, None) == Some((next@, action@)));
            return (next, Some(action));
        },
        (Phase::Sending(round), LoopEvent::Sent(false)) => {
            let from = round.at + 1;
            (round, from)
        },
        (Phase::Updating(round), LoopEvent::Updated(_)) => {
            let from = round.at + 1;
            (round, from)
        },
        (phase, _) => {
            let next = DispatchLoop { phase };
            assert(finds(before, event, drawn_since(given, given), None));
            assert(may_find(before, event, None));
            assert(step(before, event, None) is None);
            return (next, None);
        },
    };
    let ghost (moment, pause, queued) = (round.current, round.sleep_for, round.queue@);
    assert(scan(before, event) == Some((moment, queued, from as int)));
    let (next, action) = round.resume(from, rand_source);
    proof {
        use_type_invariant(&next);
        let drawn = drawn_since(given, rand_source.given());
        let found = choose|found: Option<int>|
            goes(moment, queued, from as int, drawn, found) && may_pick(
                moment,
                queued,
                from as int,
                found,
            ) && (next@, action@) == #[trigger] resume(moment, pause, queued, found);
        assert(finds(before, event, drawn, found));
        assert(may_find(before, event, found));
        assert(step(before, event, found) == Some((next@, action@)));
    }
    (next, Some(action))
}

/// Deduplication: a subscription that was served with the moment already
/// gets no message, whatever the sample; going through a queue never ends
/// at one.
pub proof fn lemma_served_gets_no_message(
    current: DateConversionReturn<DayType>,
    queue: Seq<SubscriptionDoc>,
    from: int,
    found: Option<int>,
)
    requires
        may_pick(current, queue, from, found),
    ensures
        forall|subscription: SubscriptionDoc| #[trigger]
            subscription.served(current.data) ==> !can_deliver(current, subscription),
        found matches Some(at) ==> !queue[at].served(current.data),
{
}

/// Forced delivery: at the last instant of a window the loop passes over
/// no subscription but those that were served with the moment already. So
/// it ends at the first one that was not, or at the end of the queue where
/// all were.
pub proof fn lemma_last_instant_passes_served_only(
    current: DateConversionReturn<DayType>,
    queue: Seq<SubscriptionDoc>,
    from: int,
    found: Option<int>,
)
    requires
        current.last_possible,
        may_pick(current, queue, from, found),
    ensures
        forall|subscription: SubscriptionDoc|
            !(#[trigger] subscription.served(current.data)) ==> !can_hold_back(
                current,
                subscription,
            ),
        forall|i: int|
            from <= i < (match found {
                Some(at) => at,
                None => queue.len() as int,
            }) ==> (#[trigger] queue[i]).served(current.data),
{
    assert forall|i: int|
        from <= i < (match found {
            Some(at) => at,
            None => queue.len() as int,
        }) implies (#[trigger] queue[i]).served(current.data) by {
        assert(can_hold_back(current, queue[i]));
    }
}

/// A message goes only to a subscription of the queue that was not served
/// with the moment yet, to its channel, and with the text of the moment.
pub proof fn lemma_message_goes_to_unserved(state: LoopView, event: LoopEvent, found: Option<int>)
    requires
        may_find(state, event, found),
    ensures
        step(state, event, found) matches Some((after, LoopActionView::Send { channel, title, .. }))
            ==> {
            &&& after matches LoopView::Sending { current, queue, at, .. }
            &&& 0 <= at < queue.len()
            &&& !queue[at].served(current.data)
            &&& channel == queue[at].data.channel
            &&& title == current.data.display_text()
        },
{
    if step(state, event, found) matches Some((after, LoopActionView::Send { .. })) {
        let (current, queue, from) = scan(state, event).unwrap();
        lemma_served_gets_no_message(current, queue, from, found);
    }
}

/// A record is written only after its message went out, and what is
/// written is the subscription served with the moment: the same key and
/// destination, told last about the moment of this tick.
pub proof fn lemma_record_follows_message(state: LoopView, event: LoopEvent, found: Option<int>)
    ensures
        step(state, event, found) matches Some((_, LoopActionView::Update { id, record })) ==> {
            &&& event == LoopEvent::Sent(true)
            &&& state matches LoopView::Sending { current, queue, at, .. }
            &&& id == queue[at].id
            &&& is_for(record, queue[at].data.guild, queue[at].data.channel)
            &&& (SubscriptionDoc { id, data: record }).served(current.data)
        },
{
}

} // verus!
