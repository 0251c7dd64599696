//! What holds of the two peers together: laws over the rules that the
//! state machines follow.

use vstd::prelude::*;
use crate::discovery::{listing_answer, DiscoveryAction};
use crate::protocol::{
    opposite_operation, target_state, ConnectionFault, DecodeError, Operation, RemoteCallError,
    ACTIVE, DISCOVERY_INTERVAL_SECS, IDLE, lemma_state_names_differ,
};
use crate::service::{performed, served};
use crate::toggler::{transition, Action, EventView, ReportView, Step, TogglerPhase};

verus! {

/// The toggler after the events `events`, handed over one after the other
/// from the phase `phase`: its last phase, and the actions it asked for,
/// oldest first. `None` where one of the events came out of turn.
pub open spec fn run(phase: TogglerPhase, events: Seq<EventView>) -> Option<
    (TogglerPhase, Seq<Action>),
>
    decreases events.len(),
{
    if events.len() == 0 {
        Some((phase, Seq::empty()))
    } else {
        match transition(phase, events.first()) {
            Some(step) => match run(step.phase, events.drop_first()) {
                Some((last, later)) => Some((last, seq![step.action] + later)),
                None => None,
            },
            None => None,
        }
    }
}

/// The operations that `actions` call, oldest first.
pub open spec fn calls(actions: Seq<Action>) -> Seq<Operation>
    decreases actions.len(),
{
    if actions.len() == 0 {
        Seq::empty()
    } else {
        match actions.first() {
            Action::Call(op) => seq![op] + calls(actions.drop_first()),
            _ => calls(actions.drop_first()),
        }
    }
}

/// What the toggler is handed while it deals with one heartbeat, on a bus
/// that loses nothing, against a service whose state reads `state`: the
/// heartbeat, the state read, and the reply to the call.
pub open spec fn heartbeat_events(
    state: Seq<char>,
    timestamp: u64,
    reply: Result<(), RemoteCallError>,
) -> Seq<EventView> {
    seq![
        EventView::Heartbeat(Ok(timestamp)),
        EventView::StateRead(Ok(state)),
        EventView::CallReturned(reply),
    ]
}

/// The state of the service once a listening toggler has dealt with one
/// heartbeat and the service has performed what the toggler called.
pub open spec fn state_after_heartbeat(state: Seq<char>, timestamp: u64) -> Seq<char> {
    match run(TogglerPhase::Listening, heartbeat_events(state, timestamp, Ok(()))) {
        Some((_, actions)) => served(state, calls(actions)).0,
        None => state,
    }
}

/// The state of the service once the heartbeats with the timestamps
/// `timestamps` have been dealt with, each one to its end before the next.
pub open spec fn state_after_heartbeats(state: Seq<char>, timestamps: Seq<u64>) -> Seq<char>
    decreases timestamps.len(),
{
    if timestamps.len() == 0 {
        state
    } else {
        state_after_heartbeat(
            state_after_heartbeats(state, timestamps.drop_last()),
            timestamps.last(),
        )
    }
}

/// The seconds that the discovery sleeps before it proceeds, when the
/// registry answers its looks with `listings`, one after the other. `None`
/// where it gives up, or has not found the target when the listings end.
pub open spec fn seconds_asleep(
    target: Seq<char>,
    listings: Seq<Result<Seq<Seq<char>>, ConnectionFault>>,
) -> Option<nat>
    decreases listings.len(),
{
    if listings.len() == 0 {
        None
    } else {
        match listing_answer(target, listings.first()) {
            DiscoveryAction::Proceed => Some(0),
            DiscoveryAction::Sleep(seconds) => match seconds_asleep(target, listings.drop_first()) {
                Some(later) => Some(seconds as nat + later),
                None => None,
            },
            _ => None,
        }
    }
}

/// Each call makes the service notify once, with the state that the call
/// asks for, and the last call decides the state.
pub proof fn lemma_one_notification_per_call(state: Seq<char>, ops: Seq<Operation>)
    ensures
        served(state, ops).1.len() == ops.len(),
        forall|i: int| 0 <= i < ops.len() ==> served(state, ops).1[i] == target_state(#[trigger] ops[i]),
        served(state, ops).0 == if ops.len() == 0 {
            state
        } else {
            target_state(ops.last())
        },
    decreases ops.len(),
{
    if ops.len() > 0 {
        let rest = ops.drop_first();
        let first_state = performed(state, ops.first()).0;
        lemma_one_notification_per_call(first_state, rest);
        assert forall|i: int| 0 <= i < ops.len() implies served(state, ops).1[i] == target_state(
            #[trigger] ops[i],
        ) by {
            if i > 0 {
                assert(ops[i] == rest[i - 1]);
            }
        }
        if rest.len() > 0 {
            assert(rest.last() == ops.last());
        }
    }
}

/// `activate` is idempotent: called twice in a row, from any state, it
/// leaves the service active both times and makes it notify `active` twice,
/// once for each call.
pub proof fn lemma_activate_is_idempotent(state: Seq<char>)
    ensures
        performed(state, Operation::Activate).0 == ACTIVE@,
        performed(performed(state, Operation::Activate).0, Operation::Activate).0 == ACTIVE@,
        served(state, seq![Operation::Activate, Operation::Activate]) == (
            ACTIVE@,
            seq![ACTIVE@, ACTIVE@],
        ),
{
    let ops = seq![Operation::Activate, Operation::Activate];
    lemma_one_notification_per_call(state, ops);
    assert(served(state, ops).1 =~= seq![ACTIVE@, ACTIVE@]);
}

/// A heartbeat makes a listening toggler call exactly one operation:
/// `deactivate` where the state reads `active`, `activate` where it reads
/// anything else. Whatever the reply to the call, the toggler listens again.
pub proof fn lemma_heartbeat_calls_once(
    state: Seq<char>,
    timestamp: u64,
    reply: Result<(), RemoteCallError>,
)
    ensures
        run(TogglerPhase::Listening, heartbeat_events(state, timestamp, reply)) == Some(
            (
                TogglerPhase::Listening,
                seq![
                    Action::ReadState,
                    Action::Call(opposite_operation(state)),
                    Action::AwaitEvent,
                ],
            ),
        ),
        calls(
            seq![Action::ReadState, Action::Call(opposite_operation(state)), Action::AwaitEvent],
        ) == seq![opposite_operation(state)],
        state == ACTIVE@ ==> opposite_operation(state) == Operation::Deactivate,
        state != ACTIVE@ ==> opposite_operation(state) == Operation::Activate,
{
    let op = opposite_operation(state);
    let events = heartbeat_events(state, timestamp, reply);
    let after_one = events.drop_first();
    let after_two = after_one.drop_first();
    let after_three = after_two.drop_first();
    assert(after_three.len() == 0);
    assert(run(TogglerPhase::Listening, after_three) == Some(
        (TogglerPhase::Listening, Seq::<Action>::empty()),
    ));
    assert(after_two.first() == EventView::CallReturned(reply));
    assert(run(TogglerPhase::Calling(op), after_two) == Some(
        (TogglerPhase::Listening, seq![Action::AwaitEvent] + Seq::<Action>::empty()),
    ));
    assert(after_one.first() == EventView::StateRead(Ok(state)));
    assert(run(TogglerPhase::ReadingState, after_one) == Some(
        (
            TogglerPhase::Listening,
            seq![Action::Call(op)] + (seq![Action::AwaitEvent] + Seq::<Action>::empty()),
        ),
    ));
    assert(events.first() == EventView::Heartbeat(Ok(timestamp)));
    let actions = seq![Action::ReadState, Action::Call(op), Action::AwaitEvent];
    assert(seq![Action::ReadState] + (seq![Action::Call(op)] + (seq![Action::AwaitEvent]
        + Seq::<Action>::empty())) =~= actions);
    lemma_calls_of_a_heartbeat(op);
}

/// The actions of one heartbeat hold one call.
proof fn lemma_calls_of_a_heartbeat(op: Operation)
    ensures
        calls(seq![Action::ReadState, Action::Call(op), Action::AwaitEvent]) == seq![op],
{
    let actions = seq![Action::ReadState, Action::Call(op), Action::AwaitEvent];
    let after_one = actions.drop_first();
    let after_two = after_one.drop_first();
    let after_three = after_two.drop_first();
    assert(after_three.len() == 0);
    assert(calls(after_three) == Seq::<Operation>::empty());
    assert(after_two.first() == Action::AwaitEvent);
    assert(calls(after_two) == Seq::<Operation>::empty());
    assert(after_one.first() == Action::Call(op));
    assert(calls(after_one) =~= seq![op]);
    assert(actions.first() == Action::ReadState);
}

/// One heartbeat, dealt with to its end, turns an active service idle and
/// any other service active.
pub proof fn lemma_heartbeat_toggles(state: Seq<char>, timestamp: u64)
    ensures
        state_after_heartbeat(state, timestamp) == target_state(opposite_operation(state)),
        state == ACTIVE@ ==> state_after_heartbeat(state, timestamp) == IDLE@,
        state != ACTIVE@ ==> state_after_heartbeat(state, timestamp) == ACTIVE@,
{
    lemma_heartbeat_calls_once(state, timestamp, Ok(()));
    lemma_one_notification_per_call(state, seq![opposite_operation(state)]);
}

/// Heartbeats that are dealt with one at a time, starting from an idle
/// service, leave it active after an odd number of them and idle after an
/// even number.
pub proof fn lemma_heartbeats_alternate(timestamps: Seq<u64>)
    ensures
        state_after_heartbeats(IDLE@, timestamps) == if timestamps.len() % 2 == 1 {
            ACTIVE@
        } else {
            IDLE@
        },
    decreases timestamps.len(),
{
    lemma_state_names_differ();
    if timestamps.len() > 0 {
        lemma_heartbeats_alternate(timestamps.drop_last());
        lemma_heartbeat_toggles(
            state_after_heartbeats(IDLE@, timestamps.drop_last()),
            timestamps.last(),
        );
    }
}

/// Once the subscriptions are made, no fault of a single event ends the
/// loop: the toggler gives up only when both streams have closed. Until then
/// it asks for the next thing to do, whatever it was handed.
pub proof fn lemma_only_closure_ends_the_loop(phase: TogglerPhase, event: EventView)
    requires
        phase != TogglerPhase::Subscribing,
    ensures
        match transition(phase, event) {
            Some(step) => step.action is End <==> event is Closed,
            None => true,
        },
{
}

/// Heartbeats do not overlap: while the toggler deals with one, it takes
/// nothing from the streams. A heartbeat or a property change that is handed
/// to it before the reply it waits for is out of turn.
pub proof fn lemma_heartbeats_do_not_overlap(phase: TogglerPhase, event: EventView)
    requires
        phase is ReadingState || phase is Calling,
        event is Heartbeat || event is PropertyChanged || event is Closed,
    ensures
        transition(phase, event) is None,
{
}

/// A heartbeat whose body cannot be read is reported and discarded: the
/// toggler calls nothing, stays listening, and deals with the events that
/// follow as if the heartbeat had not come.
pub proof fn lemma_unreadable_heartbeat_is_discarded(error: DecodeError, later: Seq<EventView>)
    ensures
        transition(TogglerPhase::Listening, EventView::Heartbeat(Err(error))) == Some(
            Step {
                phase: TogglerPhase::Listening,
                report: ReportView::HeartbeatUnreadable,
                action: Action::AwaitEvent,
            },
        ),
        run(TogglerPhase::Listening, seq![EventView::Heartbeat(Err(error))] + later) == match run(
            TogglerPhase::Listening,
            later,
        ) {
            Some((last, actions)) => Some((last, seq![Action::AwaitEvent] + actions)),
            None => None,
        },
        forall|actions: Seq<Action>| #[trigger]
            calls(seq![Action::AwaitEvent] + actions) == calls(actions),
{
    let events = seq![EventView::Heartbeat(Err(error))] + later;
    assert(events.first() == EventView::Heartbeat(Err(error)));
    assert(events.drop_first() =~= later);
    assert forall|actions: Seq<Action>| #[trigger]
        calls(seq![Action::AwaitEvent] + actions) == calls(actions) by {
        let all = seq![Action::AwaitEvent] + actions;
        assert(all.first() == Action::AwaitEvent);
        assert(all.drop_first() =~= actions);
    }
}

/// Discovery ends with the first look that finds the service, and no sooner.
/// Let a look take no time, so that the looks come at the seconds 0,
/// `DISCOVERY_INTERVAL_SECS`, twice that and so on; let the registry answer
/// each of them, and let it list the target from the second `delay` on and
/// not before. Then the discovery proceeds after it has slept for no less
/// than `delay` seconds and for less than `delay` plus one interval.
pub proof fn lemma_discovery_ends_with_registration(
    target: Seq<char>,
    listings: Seq<Result<Seq<Seq<char>>, ConnectionFault>>,
    delay: nat,
)
    requires
        forall|k: int| 0 <= k < listings.len() ==> (#[trigger] listings[k]) is Ok,
        forall|k: int|
            0 <= k < listings.len() ==> ((#[trigger] listings[k])->Ok_0.contains(target) <==> k
                * DISCOVERY_INTERVAL_SECS >= delay),
        (listings.len() - 1) * DISCOVERY_INTERVAL_SECS >= delay,
    ensures
        seconds_asleep(target, listings) matches Some(seconds) && delay <= seconds < delay
            + DISCOVERY_INTERVAL_SECS,
{
    lemma_discovery_from(target, listings, delay, 0);
}

/// The same for a discovery that has slept for `slept` seconds already, a
/// whole number of intervals, without finding the service.
proof fn lemma_discovery_from(
    target: Seq<char>,
    listings: Seq<Result<Seq<Seq<char>>, ConnectionFault>>,
    delay: nat,
    slept: nat,
)
    requires
        forall|k: int| 0 <= k < listings.len() ==> (#[trigger] listings[k]) is Ok,
        forall|k: int|
            0 <= k < listings.len() ==> ((#[trigger] listings[k])->Ok_0.contains(target) <==> slept
                + k * DISCOVERY_INTERVAL_SECS >= delay),
        slept + (listings.len() - 1) * DISCOVERY_INTERVAL_SECS >= delay,
        slept > 0 ==> slept - DISCOVERY_INTERVAL_SECS < delay,
    ensures
        seconds_asleep(target, listings) matches Some(seconds) && delay <= slept + seconds < delay
            + DISCOVERY_INTERVAL_SECS,
    decreases listings.len(),
{
    assert(listings[0] is Ok);
    if !listings[0]->Ok_0.contains(target) {
        let rest = listings.drop_first();
        assert forall|k: int| 0 <= k < rest.len() implies (#[trigger] rest[k]) is Ok by {
            assert(rest[k] == listings[k + 1]);
        }
        assert forall|k: int| 0 <= k < rest.len() implies ((#[trigger] rest[k])->Ok_0.contains(
            target,
        ) <==> slept + DISCOVERY_INTERVAL_SECS + k * DISCOVERY_INTERVAL_SECS >= delay) by {
            assert(rest[k] == listings[k + 1]);
        }
        lemma_discovery_from(target, rest, delay, slept + DISCOVERY_INTERVAL_SECS as nat);
    }
}

} // verus!
