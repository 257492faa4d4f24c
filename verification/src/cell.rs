//! The loop that runs an actor, as a machine: the stage it is in, the event that comes in,
//! the stage that follows and what to do next.
//!
//! The machine holds the receiving end of the actor's mailbox. Whoever drives it carries out
//! the actions that the machine cannot: waiting for the mailbox and calling the behavior.

use crate::actor::{ActorContext, ActorRef};
use crate::behavior::Behaviors;
use crate::error::{Error, NoActorRef, Stopped};
use std::sync::Arc;
use tokio::sync::mpsc::error::TryRecvError;
use tokio::sync::mpsc::{unbounded_channel, UnboundedReceiver, UnboundedSender};
use vstd::pervasive::unreached;
use vstd::prelude::*;

verus! {

/// tokio's `UnboundedReceiver`, the receiving half of an unbounded channel.
#[verifier::external_type_specification]
#[verifier::external_body]
#[verifier::reject_recursive_types(T)]
pub struct ExUnboundedReceiver<T>(UnboundedReceiver<T>);

/// `unbounded_channel` makes a channel and gives its two halves. Nothing is claimed of them.
pub assume_specification<T>[ tokio::sync::mpsc::unbounded_channel::<T> ]() -> (r: (
    UnboundedSender<T>,
    UnboundedReceiver<T>,
));

/// What a mailbox answers when asked for a message without waiting.
#[derive(Debug)]
pub enum Polled<T> {
    /// The oldest message in the mailbox.
    Message(T),
    /// No message is there now; one may still come.
    Empty,
    /// No message is there and none can come: no handle is left.
    Disconnected,
}

/// Calls `UnboundedReceiver::try_recv`, which takes the oldest message out of the channel if
/// there is one, and otherwise tells whether one may still come. What it finds depends on
/// what the senders did, so nothing is claimed of the answer.
#[verifier::external_body]
fn try_recv<T>(rx: &mut UnboundedReceiver<T>) -> (r: Polled<T>) {
    match rx.try_recv() {
        Ok(msg) => Polled::Message(msg),
        Err(TryRecvError::Empty) => Polled::Empty,
        Err(TryRecvError::Disconnected) => Polled::Disconnected,
    }
}

/// What the actor does with a message that arrives.
#[derive(Debug, Clone, Copy, PartialEq, Eq, Structural)]
pub enum Mode {
    /// The behavior gets it.
    Running,
    /// It is discarded as unhandled; the behavior has answered `Behaviors::Empty`.
    Empty,
    /// It is discarded; the behavior has answered `Behaviors::Ignore`.
    Ignore,
}

/// Where the actor's loop stands.
#[derive(Debug, Clone, Copy, PartialEq, Eq, Structural)]
pub enum Stage {
    /// About to ask the mailbox for a message without waiting.
    Polling(Mode),
    /// The mailbox was empty: waiting for a message or for the last handle to go.
    Waiting(Mode),
    /// A message is with the behavior.
    Handling,
    /// The loop has ended and the mailbox is closed.
    Exited,
}

/// What comes back from the action that the machine asked for.
#[derive(Debug)]
pub enum Event<T> {
    /// The mailbox's answer to being asked without waiting.
    Polled(Polled<T>),
    /// What waiting for the mailbox gave: a message, or `None` when no handle is left.
    Received(Option<T>),
    /// What the behavior answered, reduced to a directive or a failure.
    Handled(Result<Behaviors, Error<T>>),
}

/// What whoever drives the machine is to do next.
#[derive(Debug)]
pub enum Action<T> {
    /// Ask the mailbox for a message without waiting.
    Poll,
    /// Wait for the mailbox.
    Wait,
    /// Call the behavior with this message.
    Invoke(T),
    /// Stop: the actor has ended in this way. The mailbox is closed already.
    Exit(Error<T>),
}

impl Mode {
    /// The mode that a directive of the behavior puts the actor in, where it goes on.
    pub open spec fn after(directive: Behaviors) -> Option<Mode> {
        match directive {
            Behaviors::Same | Behaviors::Unhandled => Some(Mode::Running),
            Behaviors::Empty => Some(Mode::Empty),
            Behaviors::Ignore => Some(Mode::Ignore),
            Behaviors::Stopped => None,
        }
    }
}

impl Stage {
    /// The stage in which every actor starts.
    pub open spec fn start() -> Stage {
        Stage::Polling(Mode::Running)
    }

    /// Whether the actor holds the receiving end of its mailbox: as long as its loop has not
    /// ended.
    pub open spec fn holds_mailbox(self) -> bool {
        !(self is Exited)
    }

    /// What follows when the mailbox gives a message, or tells that none can come. A running
    /// actor gives the message to its behavior; a draining one drops it and asks the mailbox
    /// again. With no message and no handle left the loop ends, the actor abandoned.
    pub open spec fn arrival<T>(mode: Mode, msg: Option<T>) -> (Stage, Action<T>) {
        match msg {
            Some(msg) => if mode is Running {
                (Stage::Handling, Action::Invoke(msg))
            } else {
                (Stage::Polling(mode), Action::Poll)
            },
            None => (Stage::Exited, Action::Exit(Error::NoActorRef(NoActorRef))),
        }
    }

    /// What follows when the behavior has answered. `Same` and `Unhandled` keep the actor
    /// running, `Empty` and `Ignore` make it drain its mailbox from now on, and `Stopped` or a
    /// failure ends the loop. Only an ending loop gives up the mailbox.
    pub open spec fn answer<T>(handled: Result<Behaviors, Error<T>>) -> (Stage, Action<T>) {
        match handled {
            Ok(directive) => match Mode::after(directive) {
                Some(mode) => (Stage::Polling(mode), Action::Poll),
                None => (Stage::Exited, Action::Exit(Error::Stopped(Stopped))),
            },
            Err(failure) => (Stage::Exited, Action::Exit(failure)),
        }
    }

    /// The stage and the action that follow an event, or `None` where the stage does not
    /// expect the event. The mailbox is asked without waiting first and waited for only when
    /// it was empty; while a message is with the behavior nothing but its answer is taken.
    pub open spec fn step<T>(self, event: Event<T>) -> Option<(Stage, Action<T>)> {
        match (self, event) {
            (Stage::Polling(mode), Event::Polled(Polled::Message(msg))) => Some(
                Stage::arrival(mode, Some(msg)),
            ),
            (Stage::Polling(mode), Event::Polled(Polled::Disconnected)) => Some(
                Stage::arrival(mode, None),
            ),
            (Stage::Polling(mode), Event::Polled(Polled::Empty)) => Some(
                (Stage::Waiting(mode), Action::Wait),
            ),
            (Stage::Waiting(mode), Event::Received(msg)) => Some(Stage::arrival(mode, msg)),
            (Stage::Handling, Event::Handled(handled)) => Some(Stage::answer(handled)),
            _ => None,
        }
    }

    /// Whether the stage expects the event.
    pub open spec fn expects<T>(self, event: Event<T>) -> bool {
        self.step(event) is Some
    }
}

/// The receiving end of the mailbox together with how far the loop is.
#[verifier::reject_recursive_types(T)]
enum Inner<T> {
    Polling(UnboundedReceiver<T>, Mode),
    Waiting(UnboundedReceiver<T>, Mode),
    Handling(UnboundedReceiver<T>),
    Exited,
}

/// One actor without its behavior: what the behavior is told of the actor, the receiving end
/// of the mailbox, and the stage of the loop. The cell owns the receiving end in every stage
/// but `Stage::Exited`; on the step that leads there it drops it, which closes the mailbox.
#[verifier::reject_recursive_types(T)]
pub struct ActorCell<T> {
    context: ActorContext<T>,
    inner: Inner<T>,
}

impl<T> ActorCell<T> {
    /// Where the loop stands.
    pub closed spec fn stage(&self) -> Stage {
        match self.inner {
            Inner::Polling(_, mode) => Stage::Polling(mode),
            Inner::Waiting(_, mode) => Stage::Waiting(mode),
            Inner::Handling(_) => Stage::Handling,
            Inner::Exited => Stage::Exited,
        }
    }

    /// What the behavior is told of the actor.
    pub closed spec fn identity(&self) -> ActorContext<T> {
        self.context
    }

    /// The receiving end of the mailbox, as long as the cell owns it.
    pub closed spec fn mailbox(&self) -> Option<UnboundedReceiver<T>> {
        match self.inner {
            Inner::Polling(rx, _) => Some(rx),
            Inner::Waiting(rx, _) => Some(rx),
            Inner::Handling(rx) => Some(rx),
            Inner::Exited => None,
        }
    }

    /// Makes the mailbox of a new actor of the given name. Gives the first handle on it and
    /// the actor's cell, which holds the receiving end and stands at the start of its loop.
    pub fn new(name: Arc<str>) -> (made: (ActorRef<T>, ActorCell<T>))
        ensures
            made.1.stage() == Stage::start(),
            made.1.mailbox() is Some,
            made.1.identity().handle() == made.0,
            made.1.identity().label() == (*name)@,
    {
        let (tx, rx) = unbounded_channel();
        let this = ActorRef { tx };
        let context = ActorContext::new(this.clone(), name);
        (this, ActorCell { context, inner: Inner::Polling(rx, Mode::Running) })
    }

    /// Where the loop stands.
    pub fn current(&self) -> (stage: Stage)
        ensures
            stage == self.stage(),
    {
        match &self.inner {
            Inner::Polling(_, mode) => Stage::Polling(*mode),
            Inner::Waiting(_, mode) => Stage::Waiting(*mode),
            Inner::Handling(_) => Stage::Handling,
            Inner::Exited => Stage::Exited,
        }
    }

    /// What the behavior is told of the actor.
    pub fn context(&self) -> (context: &ActorContext<T>)
        ensures
            *context == self.identity(),
    {
        &self.context
    }

    /// Whether the loop, where it stands, expects the event.
    pub fn expects(&self, event: &Event<T>) -> (r: bool)
        ensures
            r == self.stage().expects(*event),
    {
        match (&self.inner, event) {
            (Inner::Polling(_, _), Event::Polled(_)) => true,
            (Inner::Waiting(_, _), Event::Received(_)) => true,
            (Inner::Handling(_), Event::Handled(_)) => true,
            _ => false,
        }
    }

    /// The receiving end of the mailbox, for whoever drives the loop to wait on.
    pub fn receiver(&mut self) -> (rx: &mut UnboundedReceiver<T>)
        requires
            old(self).stage().holds_mailbox(),
        ensures
            Some(*rx) == old(self).mailbox(),
            final(self).mailbox() == Some(*final(rx)),
            final(self).stage() == old(self).stage(),
            final(self).identity() == old(self).identity(),
    {
        match &mut self.inner {
            Inner::Polling(rx, _) => rx,
            Inner::Waiting(rx, _) => rx,
            Inner::Handling(rx) => rx,
            Inner::Exited => unreached(),
        }
    }

    /// Asks the mailbox for a message without waiting and moves the loop on by what it
    /// answers.
    pub fn poll(self) -> (next: (ActorCell<T>, Action<T>))
        requires
            self.stage() is Polling,
        ensures
            exists|polled: Polled<T>|
                Some((next.0.stage(), next.1)) == #[trigger] self.stage().step(
                    Event::Polled(polled),
                ),
            next.0.identity() == self.identity(),
            next.0.mailbox() is Some <==> next.0.stage().holds_mailbox(),
    {
        let ActorCell { context, inner } = self;
        match inner {
            Inner::Polling(mut rx, mode) => {
                let polled = try_recv(&mut rx);
                let cell = ActorCell { context, inner: Inner::Polling(rx, mode) };
                cell.step(Event::Polled(polled))
            },
            _ => unreached(),
        }
    }

    /// Moves the loop on when the mailbox has given a message, or has told that none can
    /// come. A message goes to the behavior if the actor is running and is dropped if not.
    fn arrival(
        context: ActorContext<T>,
        rx: UnboundedReceiver<T>,
        mode: Mode,
        msg: Option<T>,
    ) -> (next: (ActorCell<T>, Action<T>))
        ensures
            (next.0.stage(), next.1) == Stage::arrival(mode, msg),
            next.0.identity() == context,
            next.0.mailbox() == (if msg is Some {
                Some(rx)
            } else {
                None
            }),
    {
        match (msg, mode) {
            (Some(msg), Mode::Running) => (
                ActorCell { context, inner: Inner::Handling(rx) },
                Action::Invoke(msg),
            ),
            (Some(_), mode) => (
                ActorCell { context, inner: Inner::Polling(rx, mode) },
                Action::Poll,
            ),
            (None, _) => (
                ActorCell { context, inner: Inner::Exited },
                Action::Exit(Error::NoActorRef(NoActorRef)),
            ),
        }
    }

    /// Moves the loop on when the behavior has answered.
    fn answer(
        context: ActorContext<T>,
        rx: UnboundedReceiver<T>,
        handled: Result<Behaviors, Error<T>>,
    ) -> (next: (ActorCell<T>, Action<T>))
        ensures
            (next.0.stage(), next.1) == Stage::answer(handled),
            next.0.identity() == context,
            next.0.mailbox() == (if next.0.stage().holds_mailbox() {
                Some(rx)
            } else {
                None
            }),
    {
        match handled {
            Ok(behavior) => match behavior {
                Behaviors::Empty => (
                    ActorCell { context, inner: Inner::Polling(rx, Mode::Empty) },
                    Action::Poll,
                ),
                Behaviors::Ignore => (
                    ActorCell { context, inner: Inner::Polling(rx, Mode::Ignore) },
                    Action::Poll,
                ),
                Behaviors::Same | Behaviors::Unhandled => (
                    ActorCell { context, inner: Inner::Polling(rx, Mode::Running) },
                    Action::Poll,
                ),
                Behaviors::Stopped => (
                    ActorCell { context, inner: Inner::Exited },
                    Action::Exit(Error::Stopped(Stopped)),
                ),
            },
            Err(err) => (ActorCell { context, inner: Inner::Exited }, Action::Exit(err)),
        }
    }

    /// Takes the event that the last action brought and moves the loop on.
    pub fn step(self, event: Event<T>) -> (next: (ActorCell<T>, Action<T>))
        requires
            self.stage().expects(event),
        ensures
            Some((next.0.stage(), next.1)) == self.stage().step(event),
            next.0.identity() == self.identity(),
            next.0.mailbox() == (if next.0.stage().holds_mailbox() {
                self.mailbox()
            } else {
                None
            }),
    {
        let ActorCell { context, inner } = self;
        match (inner, event) {
            (Inner::Polling(rx, mode), Event::Polled(Polled::Message(msg))) => Self::arrival(
                context,
                rx,
                mode,
                Some(msg),
            ),
            (Inner::Polling(rx, mode), Event::Polled(Polled::Disconnected)) => Self::arrival(
                context,
                rx,
                mode,
                None,
            ),
            (Inner::Polling(rx, mode), Event::Polled(Polled::Empty)) => (
                ActorCell { context, inner: Inner::Waiting(rx, mode) },
                Action::Wait,
            ),
            (Inner::Waiting(rx, mode), Event::Received(msg)) => Self::arrival(
                context,
                rx,
                mode,
                msg,
            ),
            (Inner::Handling(rx), Event::Handled(handled)) => Self::answer(context, rx, handled),
            _ => unreached(),
        }
    }
}

} // verus!
