//! Handles on an actor's mailbox, and what a behavior is told of the actor it runs in.

use crate::error::ActorRefGone;
use crate::format::write_three;
use std::fmt::{Debug, Formatter};
use std::ops::{Deref, DerefMut};
use std::sync::Arc;
use tokio::sync::mpsc::UnboundedSender;
use vstd::prelude::*;

verus! {

/// tokio's `UnboundedSender`, the sending half of an unbounded channel.
#[verifier::external_type_specification]
#[verifier::external_body]
#[verifier::reject_recursive_types(T)]
pub struct ExUnboundedSender<T>(UnboundedSender<T>);

/// Calls `UnboundedSender::send`, which puts the message into the channel, or, if the
/// receiving half is closed or dropped, hands it back inside its error. Whether the receiving
/// half is closed is not the sender's to know, so the contract only says which message comes
/// back.
#[verifier::external_body]
fn send<T>(tx: &UnboundedSender<T>, msg: T) -> (r: Result<(), T>)
    ensures
        r matches Err(back) ==> back == msg,
{
    match tx.send(msg) {
        Ok(()) => Ok(()),
        Err(rejected) => Err(rejected.0),
    }
}

/// `UnboundedSender::is_closed` tells whether the receiving half was closed or dropped when
/// it looked. Nothing is claimed of the answer.
pub assume_specification<T>[ UnboundedSender::<T>::is_closed ](tx: &UnboundedSender<T>) -> (r:
    bool);

/// `UnboundedSender::clone` gives another handle on the same channel: it copies the sender's
/// one field, a shared pointer to the channel.
pub assume_specification<T>[ <UnboundedSender<T> as Clone>::clone ](
    tx: &UnboundedSender<T>,
) -> (r: UnboundedSender<T>)
    ensures
        r == *tx,
;

/// A handle on an actor's mailbox. Whoever holds one can send the actor messages.
#[verifier::reject_recursive_types(T)]
pub struct ActorRef<T> {
    pub(crate) tx: UnboundedSender<T>,
}

impl<T> ActorRef<T> {
    /// The sending half of the channel behind the handle.
    pub closed spec fn channel(&self) -> UnboundedSender<T> {
        self.tx
    }

    /// What sending `msg` gives, by whether the actor still holds the receiving end of its
    /// mailbox: the mailbox takes the message, or the message comes back.
    pub open spec fn told(held: bool, msg: T) -> Result<(), ActorRefGone<T>> {
        if held {
            Ok(())
        } else {
            Err(ActorRefGone(msg))
        }
    }

    /// Sends `msg` to the actor. If the actor's mailbox is closed the message comes back.
    pub fn tell(&self, msg: T) -> (r: Result<(), ActorRefGone<T>>)
        ensures
            r == Self::told(r is Ok, msg),
    {
        Self::answer(send(&self.tx, msg))
    }

    /// The sending half of the channel behind the handle, for what only the channel can do
    /// for a caller: waiting until the actor's mailbox is closed.
    pub fn sender(&self) -> (tx: &UnboundedSender<T>)
        ensures
            *tx == self.channel(),
    {
        &self.tx
    }

    /// Whether the actor's mailbox was still open when this looked.
    pub fn is_alive(&self) -> bool {
        Self::alive(self.tx.is_closed())
    }

    /// What `tell` answers, given what the channel answered to the message: it took it, or
    /// it handed it back because the receiving end is closed.
    pub fn answer(sent: Result<(), T>) -> (r: Result<(), ActorRefGone<T>>)
        ensures
            r == (match sent {
                Ok(()) => Ok(()),
                Err(back) => Err(ActorRefGone(back)),
            }),
    {
        match sent {
            Ok(()) => Ok(()),
            Err(back) => Err(ActorRefGone(back)),
        }
    }

    /// What `is_alive` answers, given whether the channel found its receiving end closed.
    pub fn alive(closed: bool) -> (r: bool)
        ensures
            r == !closed,
    {
        closed == false
    }
}

/// Calls `Arc::clone`, which gives another pointer to the same string.
#[verifier::external_body]
fn share(name: &Arc<str>) -> (r: Arc<str>)
    ensures
        r == *name,
{
    Arc::clone(name)
}

/// What a behavior is told of the actor it runs in: the actor's own handle and its name.
#[derive(Debug)]
#[verifier::reject_recursive_types(T)]
pub struct ActorContext<T> {
    this: ActorRef<T>,
    name: Arc<str>,
}

impl<T> ActorContext<T> {
    /// The actor's own handle.
    pub closed spec fn handle(&self) -> ActorRef<T> {
        self.this
    }

    /// The characters of the actor's name.
    pub closed spec fn label(&self) -> Seq<char> {
        (*self.name)@
    }

    pub(crate) fn new(this: ActorRef<T>, name: Arc<str>) -> (context: Self)
        ensures
            context.handle() == this,
            context.label() == (*name)@,
    {
        Self { this, name }
    }

    /// A handle on the actor itself, to hand to others.
    pub fn this(&self) -> (r: ActorRef<T>)
        ensures
            r == self.handle(),
    {
        self.this.clone()
    }

    /// The actor's name.
    pub fn name(&self) -> (r: &str)
        ensures
            r@ == self.label(),
    {
        &*self.name
    }
}

impl<T> Clone for ActorContext<T> {
    fn clone(&self) -> (r: Self)
        ensures
            r == *self,
    {
        Self { this: self.this.clone(), name: share(&self.name) }
    }
}

impl<T> Debug for ActorRef<T> {
    fn fmt(&self, f: &mut Formatter<'_>) -> std::fmt::Result {
        write_three(f, "ActorRef", " { .. }", "")
    }
}

impl<T> Clone for ActorRef<T> {
    fn clone(&self) -> (r: Self)
        ensures
            r == *self,
    {
        Self { tx: self.tx.clone() }
    }
}

/// A stand-in for the system's bus. Nothing can be published on it yet.
#[derive(Debug)]
pub struct SystemBus<T>(pub(crate) Option<T>);

impl<T> View for SystemBus<T> {
    type V = Option<T>;

    closed spec fn view(&self) -> Option<T> {
        self.0
    }
}

impl<T> SystemBus<T> {
    /// A bus that holds nothing.
    pub(crate) fn idle() -> (bus: Self)
        ensures
            bus@ is None,
    {
        SystemBus(None)
    }
}

/// A container for state that belongs to one actor.
#[derive(Debug)]
pub struct State<T>(pub(crate) T);

impl<T> State<T> {
    /// State that holds `value`.
    pub(crate) fn holding(value: T) -> (state: Self)
        ensures
            state@ == value,
    {
        State(value)
    }
}

impl<T> View for State<T> {
    type V = T;

    closed spec fn view(&self) -> T {
        self.0
    }
}

impl<T> Deref for State<T> {
    type Target = T;

    fn deref(&self) -> (r: &T)
        ensures
            *r == self@,
    {
        &self.0
    }
}

impl<T> DerefMut for State<T> {
    fn deref_mut(&mut self) -> (r: &mut T)
        ensures
            *r == old(self)@,
            final(self)@ == *final(r),
    {
        &mut self.0
    }
}

} // verus!
