//! A small actor library: handles, mailboxes, behaviors and the loop that runs them.
//!
//! An actor is reached through an [`ActorRef`], which puts messages into the actor's mailbox.
//! The actor takes them out one at a time and gives each to its behavior, together with
//! whatever the behavior asks for of the actor's [`ActorContext`] (see [`FromContext`]).
//! What the behavior returns is reduced to one of the five [`Behaviors`] or to a failure
//! (see [`IntoResult`]), and that decides what happens to the messages that follow.
//!
//! The loop itself is the machine of [`ActorCell`]: it takes an [`Event`] and answers with
//! the [`Action`] to carry out next. Waiting for the mailbox and calling the behavior are
//! left to whoever drives the cell. [`laws`] holds what is proved of every run of the loop.

use vstd::prelude::*;

mod actor;
mod behavior;
mod cell;
mod error;
mod format;
pub mod laws;

pub use actor::{ActorContext, ActorRef, State, SystemBus};
pub use behavior::{failure, failure_of, Behaviors, FromContext, IntoResult};
pub use cell::{Action, ActorCell, Event, Mode, Polled, Stage};
pub use error::{ActorRefGone, BoxErr, Error, Failure, NoActorRef, Stopped};

verus! {

/// Where actors are started from.
#[derive(Debug)]
pub struct ActorSystem {}

impl ActorSystem {
    /// A system to start actors from.
    pub fn new() -> (system: Self)
        ensures
            system == (ActorSystem {  }),
    {
        ActorSystem {  }
    }
}

} // verus!
