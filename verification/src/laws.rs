//! What holds of every run of an actor's loop, proved from the machine in `cell`.
//!
//! A run is the sequence of events that the loop took, from the first on. The laws speak of
//! the messages that the mailbox gave out and of those that reached the behavior.

use crate::actor::ActorRef;
use crate::behavior::{Behaviors, IntoResult};
use crate::cell::{Action, Event, Mode, Polled, Stage};
use crate::error::{ActorRefGone, Error, NoActorRef, Stopped};
use vstd::prelude::*;

verus! {

/// The stage that the loop is in after it took `events` one after the other from `stage`, or
/// `None` if one of them came when the loop did not expect it.
pub open spec fn run<T>(stage: Stage, events: Seq<Event<T>>) -> Option<Stage>
    decreases events.len(),
{
    if events.len() == 0 {
        Some(stage)
    } else {
        match run(stage, events.drop_last()) {
            Some(before) => match before.step(events.last()) {
                Some((after, _)) => Some(after),
                None => None,
            },
            None => None,
        }
    }
}

/// The action that the loop asked for when it took the last of `events`.
pub open spec fn last_action<T>(stage: Stage, events: Seq<Event<T>>) -> Option<Action<T>> {
    if events.len() == 0 {
        None
    } else {
        match run(stage, events.drop_last()) {
            Some(before) => match before.step(events.last()) {
                Some((_, action)) => Some(action),
                None => None,
            },
            None => None,
        }
    }
}

/// The message that an event brings from the mailbox, if it brings one.
pub open spec fn brought<T>(event: Event<T>) -> Option<T> {
    match event {
        Event::Polled(Polled::Message(msg)) => Some(msg),
        Event::Received(Some(msg)) => Some(msg),
        _ => None,
    }
}

/// Whether an event is the mailbox telling that no handle is left and no message is there.
pub open spec fn tells_abandoned<T>(event: Event<T>) -> bool {
    event == Event::<T>::Polled(Polled::Disconnected) || event == Event::<T>::Received(None)
}

/// The messages that the mailbox gave out during `events`, in the order in which it did.
pub open spec fn arrived<T>(events: Seq<Event<T>>) -> Seq<T>
    decreases events.len(),
{
    if events.len() == 0 {
        Seq::empty()
    } else {
        match brought(events.last()) {
            Some(msg) => arrived(events.drop_last()).push(msg),
            None => arrived(events.drop_last()),
        }
    }
}

/// The messages that the loop gave to the behavior during `events`, in the order in which it
/// did.
pub open spec fn invoked<T>(stage: Stage, events: Seq<Event<T>>) -> Seq<T>
    decreases events.len(),
{
    if events.len() == 0 {
        Seq::empty()
    } else {
        match last_action(stage, events) {
            Some(Action::Invoke(msg)) => invoked(stage, events.drop_last()).push(msg),
            _ => invoked(stage, events.drop_last()),
        }
    }
}

/// How many answers of the behavior are among `events`.
pub open spec fn answered<T>(events: Seq<Event<T>>) -> nat
    decreases events.len(),
{
    if events.len() == 0 {
        0
    } else if events.last() is Handled {
        answered(events.drop_last()) + 1
    } else {
        answered(events.drop_last())
    }
}

/// Whether a message that arrives in this stage, or after the answer that this stage waits
/// for, may still reach the behavior.
pub open spec fn feeds_behavior(stage: Stage) -> bool {
    stage == Stage::Polling(Mode::Running) || stage == Stage::Waiting(Mode::Running) || stage
        == Stage::Handling
}

/// The behavior gets the messages in the order in which the mailbox gives them out: at any
/// time, what has reached the behavior is the beginning of what has arrived, with no message
/// left out, repeated or moved. As long as no answer has put the actor in another mode, it is
/// all of it.
pub proof fn law_handled_in_arrival_order<T>(events: Seq<Event<T>>)
    requires
        run(Stage::start(), events) is Some,
    ensures
        invoked(Stage::start(), events).is_prefix_of(arrived(events)),
        feeds_behavior(run(Stage::start(), events)->0) ==> invoked(Stage::start(), events)
            == arrived(events),
    decreases events.len(),
{
    if events.len() > 0 {
        let earlier = events.drop_last();
        law_handled_in_arrival_order(earlier);
    }
}

/// Whether the mailbox has kept its promise during `events`: what it gave out is the
/// beginning of what was sent, in the order in which it was sent, nothing left out or given
/// twice.
pub open spec fn delivered_in_order<T>(sent: Seq<T>, events: Seq<Event<T>>) -> bool {
    arrived(events).is_prefix_of(sent)
}

/// The behavior gets the messages in the order in which they were sent, as long as the
/// mailbox keeps its promise to give them out in that order: what has reached the behavior
/// is the beginning of what was sent.
pub proof fn law_handled_in_sending_order<T>(sent: Seq<T>, events: Seq<Event<T>>)
    requires
        run(Stage::start(), events) is Some,
        delivered_in_order(sent, events),
    ensures
        invoked(Stage::start(), events).is_prefix_of(sent),
        forall|i: int|
            0 <= i < invoked(Stage::start(), events).len() ==> invoked(Stage::start(), events)[i]
                == sent[i],
{
    law_handled_in_arrival_order(events);
}

/// One message at a time: every call of the behavior is answered before the next begins. At
/// any time the behavior has been given as many messages as it has answered, and one more
/// exactly while a message is with it.
pub proof fn law_one_message_at_a_time<T>(events: Seq<Event<T>>)
    requires
        run(Stage::start(), events) is Some,
    ensures
        invoked(Stage::start(), events).len() == answered(events) + (if run(
            Stage::start(),
            events,
        ) == Some(Stage::Handling) {
            1nat
        } else {
            0nat
        }),
    decreases events.len(),
{
    if events.len() > 0 {
        law_one_message_at_a_time(events.drop_last());
    }
}

/// When the behavior answers `Stopped` the loop ends on that very answer, with
/// `Error::Stopped`, and gives up the receiving end of the mailbox. It waits for no further
/// event, and a message sent from then on comes back to its sender.
pub proof fn law_stopped_closes_at_once<T>(stage: Stage, msg: T)
    requires
        stage.expects(Event::<T>::Handled(Ok(Behaviors::Stopped))),
    ensures
        stage.step(Event::<T>::Handled(Ok(Behaviors::Stopped))) == Some(
            (Stage::Exited, Action::<T>::Exit(Error::Stopped(Stopped))),
        ),
        !Stage::Exited.holds_mailbox(),
        forall|event: Event<T>| !Stage::Exited.expects(event),
        ActorRef::told(Stage::Exited.holds_mailbox(), msg) == Err::<(), _>(ActorRefGone(msg)),
{
}

/// After the behavior has answered `Empty` or `Ignore` the actor goes on taking messages and
/// the behavior gets none of them. The actor keeps the receiving end of its mailbox, so that
/// a message sent to it is taken, until the mailbox tells that no handle is left; then, and
/// only then, the loop ends.
pub proof fn law_draining_keeps_accepting<T>(directive: Behaviors, events: Seq<Event<T>>, msg: T)
    requires
        directive is Empty || directive is Ignore,
        run(Stage::answer::<T>(Ok(directive)).0, events) is Some,
    ensures
        ({
            let start = Stage::answer::<T>(Ok(directive)).0;
            let end = run(start, events)->0;
            let abandoned = events.len() > 0 && tells_abandoned(events.last());
            &&& start.holds_mailbox()
            &&& invoked(start, events) == Seq::<T>::empty()
            &&& end is Exited <==> abandoned
            &&& abandoned ==> last_action(start, events) == Some(
                Action::<T>::Exit(Error::NoActorRef(NoActorRef)),
            )
            &&& !abandoned ==> {
                &&& !feeds_behavior(end)
                &&& end.holds_mailbox()
                &&& ActorRef::told(end.holds_mailbox(), msg) == Ok::<(), ActorRefGone<T>>(())
            }
        }),
    decreases events.len(),
{
    if events.len() > 0 {
        law_draining_keeps_accepting(directive, events.drop_last(), msg);
    }
}

/// `Empty` and `Ignore` drain alike: whatever the mailbox brings, both modes ask for the same
/// action and stay in their mode or end together.
pub proof fn law_empty_and_ignore_drain_alike<T>(event: Event<T>)
    ensures
        Stage::Polling(Mode::Empty).expects(event) == Stage::Polling(Mode::Ignore).expects(event),
        Stage::Waiting(Mode::Empty).expects(event) == Stage::Waiting(Mode::Ignore).expects(event),
        Stage::Polling(Mode::Empty).expects(event) ==> {
            let (empty, ignore) = (
                Stage::Polling(Mode::Empty).step(event)->0,
                Stage::Polling(Mode::Ignore).step(event)->0,
            );
            &&& empty.1 == ignore.1
            &&& empty.0 is Exited == ignore.0 is Exited
            &&& empty.0 is Waiting == ignore.0 is Waiting
        },
        Stage::Waiting(Mode::Empty).expects(event) ==> {
            let (empty, ignore) = (
                Stage::Waiting(Mode::Empty).step(event)->0,
                Stage::Waiting(Mode::Ignore).step(event)->0,
            );
            &&& empty.1 == ignore.1
            &&& empty.0 is Exited == ignore.0 is Exited
        },
{
}

/// A behavior that returns nothing runs as one that returns `Same`: the two reduce to the
/// same outcome, `Ok(Same)`, and so the loop goes on in the same way after either.
pub proof fn law_unit_is_same<T>(
    stage: Stage,
    of_unit: Result<Behaviors, Error<T>>,
    of_same: Result<Behaviors, Error<T>>,
)
    requires
        ().reduces_to(of_unit),
        Behaviors::Same.reduces_to(of_same),
    ensures
        of_unit == of_same,
        of_unit == Ok::<_, Error<T>>(Behaviors::Same),
        stage.step(Event::Handled(of_unit)) == stage.step(Event::Handled(of_same)),
{
}

/// A behavior that returns `None` runs as one that returns `Stopped`: the two reduce to the
/// same outcome, `Ok(Stopped)`, and the loop ends on either.
pub proof fn law_none_is_stopped<T, O: IntoResult<T>>(
    stage: Stage,
    of_none: Result<Behaviors, Error<T>>,
    of_stopped: Result<Behaviors, Error<T>>,
)
    requires
        None::<O>.reduces_to(of_none),
        Behaviors::Stopped.reduces_to(of_stopped),
    ensures
        of_none == of_stopped,
        of_none == Ok::<_, Error<T>>(Behaviors::Stopped),
        stage.step(Event::Handled(of_none)) == stage.step(Event::Handled(of_stopped)),
        stage.expects(Event::Handled(of_none)) ==> stage.step(Event::Handled(of_none)) == Some(
            (Stage::Exited, Action::<T>::Exit(Error::Stopped(Stopped))),
        ),
{
}

/// When the mailbox tells that no handle is left and no message is there, the loop ends on
/// that, with `Error::NoActorRef`, whatever mode the actor is in.
pub proof fn law_abandoned_actor_ends<T>(stage: Stage, event: Event<T>)
    requires
        stage.expects(event),
        tells_abandoned(event),
    ensures
        stage.step(event) == Some(
            (Stage::Exited, Action::<T>::Exit(Error::NoActorRef(NoActorRef))),
        ),
{
}

/// The loop ends in one of four ways and says which: every step that leads to
/// `Stage::Exited` asks for `Action::Exit`, and no other step does.
pub proof fn law_exit_names_its_reason<T>(stage: Stage, event: Event<T>)
    requires
        stage.expects(event),
    ensures
        ({
            let (next, action) = stage.step(event)->0;
            &&& next is Exited <==> action is Exit
            &&& next is Handling <==> action is Invoke
        }),
{
}

} // verus!
