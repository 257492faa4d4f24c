//! What a behavior answers after a message, and how every shape of answer is brought to one.

use crate::actor::{ActorContext, ActorRef, State, SystemBus};
use crate::error::{ActorRefGone, BoxErr, Error};
use std::any::Any;
use std::fmt::{Debug, Display};
use vstd::prelude::*;

verus! {

/// What the actor does with the messages that follow the one just handled.
#[derive(Debug, Copy, Clone)]
pub enum Behaviors {
    /// Treat every further message as unhandled: none reaches the behavior again.
    Empty,
    /// Ignore every further message: none reaches the behavior again.
    Ignore,
    /// Keep the behavior; the message was handled.
    Same,
    /// Keep the behavior; the message was not handled.
    Unhandled,
    /// Stop the actor and close its mailbox.
    Stopped,
}

/// A value that a behavior may ask for beside the message. It is made from what the actor
/// knows of itself, never from the message.
pub trait FromContext<T>: Sized {
    /// Whether `value` is what extraction from `context` may give.
    spec fn extracted(context: &ActorContext<T>, value: Self) -> bool;

    fn from_context(context: &ActorContext<T>) -> (value: Self)
        ensures
            Self::extracted(context, value),
    ;
}

impl<T> FromContext<T> for ActorContext<T> {
    /// The context itself.
    open spec fn extracted(context: &ActorContext<T>, value: Self) -> bool {
        value == *context
    }

    fn from_context(context: &ActorContext<T>) -> (value: Self) {
        Clone::clone(context)
    }
}

impl<T> FromContext<T> for ActorRef<T> {
    /// The actor's own handle.
    open spec fn extracted(context: &ActorContext<T>, value: Self) -> bool {
        value == context.handle()
    }

    fn from_context(context: &ActorContext<T>) -> (value: Self) {
        context.this()
    }
}

impl<T, S: Default> FromContext<T> for State<S> {
    /// State as `S::default` makes it, whatever the context.
    open spec fn extracted(context: &ActorContext<T>, value: Self) -> bool {
        call_ensures(S::default, (), value@)
    }

    fn from_context(_context: &ActorContext<T>) -> (value: Self) {
        State::holding(Default::default())
    }
}

impl<T, E> FromContext<T> for SystemBus<E> {
    /// A bus that holds nothing, whatever the context.
    open spec fn extracted(context: &ActorContext<T>, value: Self) -> bool {
        value@ is None
    }

    fn from_context(_context: &ActorContext<T>) -> (value: Self) {
        SystemBus::idle()
    }
}

/// A value that a behavior may return, with the way to reduce it to a directive or a failure.
pub trait IntoResult<T>: Sized {
    /// Whether `outcome` is a result that the reduction of `self` may have.
    spec fn reduces_to(self, outcome: Result<Behaviors, Error<T>>) -> bool;

    fn into_result(self) -> (outcome: Result<Behaviors, Error<T>>)
        ensures
            self.reduces_to(outcome),
    ;
}

impl<T> IntoResult<T> for Behaviors {
    /// A directive stands for itself.
    open spec fn reduces_to(self, outcome: Result<Behaviors, Error<T>>) -> bool {
        outcome == Ok::<Behaviors, Error<T>>(self)
    }

    fn into_result(self) -> (outcome: Result<Behaviors, Error<T>>) {
        Ok(self)
    }
}

impl<T> IntoResult<T> for () {
    /// Returning nothing keeps the behavior.
    open spec fn reduces_to(self, outcome: Result<Behaviors, Error<T>>) -> bool {
        outcome == Ok::<Behaviors, Error<T>>(Behaviors::Same)
    }

    fn into_result(self) -> (outcome: Result<Behaviors, Error<T>>) {
        Ok(Behaviors::Same)
    }
}

impl<T, O: IntoResult<T>> IntoResult<T> for Option<O> {
    /// `None` stops the actor; `Some` reduces as what it holds.
    open spec fn reduces_to(self, outcome: Result<Behaviors, Error<T>>) -> bool {
        match self {
            Some(inner) => inner.reduces_to(outcome),
            None => outcome == Ok::<Behaviors, Error<T>>(Behaviors::Stopped),
        }
    }

    fn into_result(self) -> (outcome: Result<Behaviors, Error<T>>) {
        match self {
            Some(inner) => inner.into_result(),
            None => Ok(Behaviors::Stopped),
        }
    }
}

/// Calls `<dyn Any>::downcast_mut`, which gives access to a value at the type asked for if
/// that is the value's type, and to nothing otherwise. So the failure comes back as a
/// rejected message if its type is `ActorRefGone<T>`, and unchanged if it is not. Which of
/// the two it is depends on the type `E` alone; no clause states it.
#[verifier::external_body]
fn downcast_gone<T: 'static, E: 'static>(err: E) -> (r: Result<ActorRefGone<T>, E>)
    ensures
        r matches Err(same) ==> same == err,
{
    let mut slot = Some(err);
    let any: &mut dyn Any = &mut slot;
    match any.downcast_mut::<Option<ActorRefGone<T>>>() {
        Some(gone) => Ok(gone.take().unwrap()),
        None => Err(slot.unwrap()),
    }
}

/// The failure that ends the actor, given what inspecting the behavior's error found: the
/// message that a closed peer handed back, or the error as it was.
pub open spec fn failure<T>(found: Result<ActorRefGone<T>, BoxErr>) -> Error<T> {
    match found {
        Ok(gone) => Error::Unhandled(gone),
        Err(other) => Error::Crashed(other),
    }
}

/// Turns what inspecting the behavior's error found into the failure that ends the actor.
pub fn failure_of<T>(found: Result<ActorRefGone<T>, BoxErr>) -> (e: Error<T>)
    ensures
        e == failure(found),
{
    match found {
        Ok(gone) => Error::Unhandled(gone),
        Err(other) => Error::Crashed(other),
    }
}

impl<T: 'static, O: IntoResult<T>, E: Debug + Display + Send + Sync + 'static> IntoResult<
    T,
> for Result<O, E> {
    /// `Ok` reduces as what it holds. `Err` ends the actor: as unhandled, or as crashed on
    /// the error itself.
    open spec fn reduces_to(self, outcome: Result<Behaviors, Error<T>>) -> bool {
        match self {
            Ok(inner) => inner.reduces_to(outcome),
            Err(err) => {
                let kept: BoxErr = Box::new(err);
                outcome matches Err(e) && (e is Unhandled || e == Error::<T>::Crashed(kept))
            },
        }
    }

    fn into_result(self) -> (outcome: Result<Behaviors, Error<T>>) {
        match self {
            Ok(inner) => inner.into_result(),
            Err(err) => {
                let found = match downcast_gone::<T, E>(err) {
                    Ok(gone) => Ok(gone),
                    Err(other) => {
                        let kept: BoxErr = Box::new(other);
                        Err(kept)
                    },
                };
                Err(failure_of(found))
            },
        }
    }
}

} // verus!
