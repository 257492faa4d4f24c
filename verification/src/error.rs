//! Why an actor ended, and why a message could not be sent.

use crate::format::{debug_derived, debug_text, pad, write_three};
use std::error::Error as StdError;
use std::fmt::{Debug, Display, Formatter};
use vstd::prelude::*;

verus! {

/// What a behavior may fail with: any value that can be shown and sent between threads.
pub trait Failure: Send + Sync + 'static {
    /// Whether `text` is the failure as its `Display` writes it.
    spec fn shown_as(&self, text: String) -> bool;

    /// The failure as its `Display` writes it.
    fn message(&self) -> (text: String)
        ensures
            self.shown_as(text),
    ;

    /// The failure as its `Debug` writes it.
    fn detail(&self) -> String;
}

/// A failure of the behavior that the actor did not recognise, kept as it came.
pub type BoxErr = Box<dyn Failure>;

/// The mailbox is closed and empty and no handle is left: the actor was abandoned.
#[derive(Copy, Clone, Debug)]
pub struct NoActorRef;

/// The actor's behavior asked to stop.
#[derive(Copy, Clone, Debug)]
pub struct Stopped;

/// A message could not be delivered because the recipient's mailbox is closed.
/// The message comes back in the field.
#[derive(Clone)]
pub struct ActorRefGone<T>(pub T);

/// The ways in which an actor ends.
pub enum Error<T> {
    /// Every handle was dropped while the actor was still taking messages.
    NoActorRef(NoActorRef),
    /// The behavior stopped the actor.
    Stopped(Stopped),
    /// The behavior failed to send to a peer of the actor's own message type whose mailbox was
    /// closed.
    Unhandled(ActorRefGone<T>),
    /// The behavior failed in any other way.
    Crashed(BoxErr),
}

impl<E: Debug + Display + Send + Sync + 'static> Failure for E {
    fn message(&self) -> (text: String) {
        self.to_string()
    }

    /// The text is what `to_string` gives for the failure.
    open spec fn shown_as(&self, text: String) -> bool {
        vstd::string::to_string_from_display_ensures::<E>(self, text)
    }

    fn detail(&self) -> String {
        debug_text(self)
    }
}

impl Display for NoActorRef {
    fn fmt(&self, f: &mut Formatter<'_>) -> std::fmt::Result {
        pad(f, "No actor refs are alive, stopping actor")
    }
}

impl StdError for NoActorRef {

}

impl Display for Stopped {
    fn fmt(&self, f: &mut Formatter<'_>) -> std::fmt::Result {
        pad(f, "Actor stopped on its own volition")
    }
}

impl StdError for Stopped {

}

impl<T> Debug for ActorRefGone<T> {
    fn fmt(&self, f: &mut Formatter<'_>) -> std::fmt::Result {
        write_three(f, "Unhandled", " { .. }", "")
    }
}

impl<T> Display for ActorRefGone<T> {
    fn fmt(&self, f: &mut Formatter<'_>) -> std::fmt::Result {
        pad(f, "The recipient ActorRef is no longer available")
    }
}

impl<T> StdError for ActorRefGone<T> {

}

impl<T> Debug for Error<T> {
    fn fmt(&self, f: &mut Formatter<'_>) -> std::fmt::Result {
        match self {
            Error::NoActorRef(e) => debug_derived(e, f),
            Error::Stopped(e) => debug_derived(e, f),
            Error::Unhandled(e) => Debug::fmt(e, f),
            Error::Crashed(e) => {
                let detail = e.detail();
                write_three(f, "Crashed(", detail.as_str(), ")")
            },
        }
    }
}

impl<T> Display for Error<T> {
    fn fmt(&self, f: &mut Formatter<'_>) -> std::fmt::Result {
        match self {
            Error::NoActorRef(e) => Display::fmt(e, f),
            Error::Stopped(e) => Display::fmt(e, f),
            Error::Unhandled(e) => Display::fmt(e, f),
            Error::Crashed(e) => {
                let message = e.message();
                write_three(f, "Error while handling the message: ", message.as_str(), "")
            },
        }
    }
}

impl<T> StdError for Error<T> {

}

impl<T> Error<T> {
    /// The failure that the behavior reported, if the actor crashed on one.
    pub fn cause(&self) -> (r: Option<&BoxErr>)
        ensures
            r == (match *self {
                Error::Crashed(failure) => Some(&failure),
                _ => None,
            }),
    {
        match self {
            Error::Crashed(failure) => Some(failure),
            _ => None,
        }
    }
}

} // verus!
