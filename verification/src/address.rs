//! Addresses: how producers reach an actor, and what they get back.

use crate::actor::Actor;
use crate::context::Context;
use crate::fut::Async;
use crate::mailbox::{Mailbox, MailboxView};
use vstd::prelude::*;

pub mod sync;

pub use sync::{Syn, Unsync};

verus! {

/// Why a message could not be put into a mailbox. The message comes back to
/// the producer inside the error.
#[derive(Debug)]
pub enum SendError<T> {
    /// The mailbox is bounded and holds as many envelopes as it may.
    Full(T),
    /// The mailbox takes no more mail: its receiver is gone, or no producer
    /// is registered with it.
    Closed(T),
}

impl<T> SendError<T> {
    /// The message that was not delivered.
    pub open spec fn message(self) -> T {
        match self {
            SendError::Full(m) => m,
            SendError::Closed(m) => m,
        }
    }

    /// The text that describes this error to a person.
    pub open spec fn description(self) -> Seq<char> {
        match self {
            SendError::Full(_) => "send failed because receiver is full"@,
            SendError::Closed(_) => "send failed because receiver is gone"@,
        }
    }

    /// The short name of this error, without the message it carries.
    pub open spec fn label(self) -> Seq<char> {
        match self {
            SendError::Full(_) => "SendError::Full(..)"@,
            SendError::Closed(_) => "SendError::Closed(..)"@,
        }
    }

    /// Hands the undelivered message back.
    pub fn into_inner(self) -> (m: T)
        ensures
            m == self.message(),
    {
        match self {
            SendError::Full(m) => m,
            SendError::Closed(m) => m,
        }
    }

    /// Tells whether the mailbox was full.
    pub fn is_full(&self) -> (r: bool)
        ensures
            r == (self is Full),
    {
        match self {
            SendError::Full(_) => true,
            SendError::Closed(_) => false,
        }
    }

    /// Tells whether the mailbox was closed.
    pub fn is_closed(&self) -> (r: bool)
        ensures
            r == (self is Closed),
    {
        match self {
            SendError::Full(_) => false,
            SendError::Closed(_) => true,
        }
    }

    /// Describes the error to a person.
    pub fn describe(&self) -> (s: String)
        ensures
            s@ == self.description(),
    {
        match self {
            SendError::Full(_) => "send failed because receiver is full".to_owned(),
            SendError::Closed(_) => "send failed because receiver is gone".to_owned(),
        }
    }

    /// Names the error for a log, leaving out the message it carries.
    pub fn debug(&self) -> (s: String)
        ensures
            s@ == self.label(),
    {
        match self {
            SendError::Full(_) => "SendError::Full(..)".to_owned(),
            SendError::Closed(_) => "SendError::Closed(..)".to_owned(),
        }
    }
}

/// A producer's registration with the local mailbox of an actor: the right
/// to send from the actor's own thread. The mailbox counts it among its
/// producers from the moment it is handed out until it is given back.
#[derive(Debug)]
pub struct LocalAddress {
    registered: (),
}

impl LocalAddress {
    /// Makes the token of a registration that the mailbox has just counted.
    pub(crate) fn registered() -> LocalAddress {
        LocalAddress { registered: () }
    }
}

/// A producer's registration with the cross-thread mailbox of an actor: the
/// right to send from any thread.
#[derive(Debug)]
pub struct Address {
    registered: (),
}

impl Address {
    /// Makes the token of a registration that the mailbox has just counted.
    pub(crate) fn registered() -> Address {
        Address { registered: () }
    }
}

/// Why a request for a reply ended without one.
#[derive(Debug, Clone, Copy, PartialEq, Eq, Structural)]
pub enum MailboxError {
    /// The actor's context has ended, or the envelope was lost with it.
    Closed,
    /// A deadline that the caller set around the request has passed.
    Timeout,
}

impl MailboxError {
    /// The text that describes this error to a person.
    pub open spec fn description(self) -> Seq<char> {
        match self {
            MailboxError::Closed => "Mailbox has closed"@,
            MailboxError::Timeout => "Message delivery timed out"@,
        }
    }

    /// Describes the error to a person.
    pub fn describe(&self) -> (s: String)
        ensures
            s@ == self.description(),
    {
        match self {
            MailboxError::Closed => "Mailbox has closed".to_owned(),
            MailboxError::Timeout => "Message delivery timed out".to_owned(),
        }
    }
}

/// Gives an actor's address of the kind `T`, out of the actor's context.
pub trait ActorAddress<A: Actor, T> {
    /// Whether the context can hand out one more address of this kind.
    spec fn obtainable(ctx: &A::Context) -> bool;

    /// How the context after the handing out relates to the one before.
    spec fn obtained(before: &A::Context, after: &A::Context) -> bool;

    /// Hands out the actor's address for this context.
    fn get(ctx: &mut A::Context) -> (addr: T)
        requires
            Self::obtainable(old(ctx)),
        ensures
            Self::obtained(old(ctx), final(ctx)),
    ;
}

impl<A, E> ActorAddress<A, LocalAddress> for A where A: Actor<Context = Context<E>> {
    open spec fn obtainable(ctx: &Context<E>) -> bool {
        ctx@.local.senders < usize::MAX
    }

    open spec fn obtained(before: &Context<E>, after: &Context<E>) -> bool {
        after@ == before@.address()
    }

    fn get(ctx: &mut Context<E>) -> (addr: LocalAddress) {
        ctx.address()
    }
}

impl<A, E> ActorAddress<A, Address> for A where A: Actor<Context = Context<E>> {
    open spec fn obtainable(ctx: &Context<E>) -> bool {
        ctx@.sync matches Some(s) ==> s.senders < usize::MAX
    }

    open spec fn obtained(before: &Context<E>, after: &Context<E>) -> bool {
        after@ == before@.address_sync()
    }

    fn get(ctx: &mut Context<E>) -> (addr: Address) {
        ctx.address_sync()
    }
}

impl<A, E> ActorAddress<A, (LocalAddress, Address)> for A where A: Actor<Context = Context<E>> {
    open spec fn obtainable(ctx: &Context<E>) -> bool {
        &&& ctx@.local.senders < usize::MAX
        &&& ctx@.sync matches Some(s) ==> s.senders < usize::MAX
    }

    open spec fn obtained(before: &Context<E>, after: &Context<E>) -> bool {
        after@ == before@.address().address_sync()
    }

    fn get(ctx: &mut Context<E>) -> (addr: (LocalAddress, Address)) {
        let local = ctx.address();
        let remote = ctx.address_sync();
        (local, remote)
    }
}

impl<A: Actor> ActorAddress<A, ()> for A {
    open spec fn obtainable(ctx: &A::Context) -> bool {
        true
    }

    open spec fn obtained(before: &A::Context, after: &A::Context) -> bool {
        after == before
    }

    fn get(ctx: &mut A::Context) -> (addr: ()) {
        ()
    }
}

/// The ability to receive one kind of message.
pub trait Subscriber<M> {
    /// Sends a message to the subscriber's buffer, if it has room. A message
    /// that is not taken comes back in the error.
    fn send(&mut self, msg: M) -> (r: Result<(), SendError<M>>)
        ensures
            r matches Err(e) ==> e.message() == msg,
    ;
}

impl<M> Subscriber<M> for Mailbox<M> {
    fn send(&mut self, msg: M) -> (r: Result<(), SendError<M>>)
        ensures
            (final(self)@, r) == old(self)@.try_send(msg),
    {
        self.try_send(msg)
    }
}

/// A way to an actor: what a producer can do with the sending side of a
/// mailbox. The local and the cross-thread way do the same; they differ in
/// where the producer may stand.
pub trait Destination {
    /// Tells whether the actor is still there to receive.
    fn connected<T>(tx: &Mailbox<T>) -> (r: bool)
        ensures
            r == tx@.open,
    {
        tx.connected()
    }

    /// Sends without waiting and without regard to the capacity. A message
    /// that the mailbox does not take is dropped.
    fn do_send<T>(tx: &mut Mailbox<T>, msg: T)
        ensures
            final(tx)@ == old(tx)@.do_send(msg).0,
            old(tx)@.inv() ==> final(tx)@.inv(),
    {
        let _ = tx.do_send(msg);
    }

    /// Sends if there is room; hands the message back if there is none, or
    /// if the mailbox takes no mail.
    fn try_send<T>(tx: &mut Mailbox<T>, msg: T) -> (r: Result<(), SendError<T>>)
        ensures
            (final(tx)@, r) == old(tx)@.try_send(msg),
            old(tx)@.inv() ==> final(tx)@.inv(),
    {
        tx.try_send(msg)
    }

    /// Sends for a reply, and gives the request that awaits it.
    fn send<T>(tx: &mut Mailbox<T>, msg: T) -> (r: Request<T>)
        ensures
            (final(tx)@, r) == Request::sent(old(tx)@, msg),
            old(tx)@.inv() ==> final(tx)@.inv(),
    {
        match tx.try_send(msg) {
            Ok(()) => Request::Pending,
            Err(SendError::Full(msg)) => Request::Parked(msg),
            Err(SendError::Closed(_)) => Request::Closed,
        }
    }

    /// Makes one more producer of the transport, as the clone of an address
    /// is.
    fn clone<T>(tx: &mut Mailbox<T>)
        requires
            old(tx)@.senders < usize::MAX,
        ensures
            final(tx)@ == old(tx)@.sender(),
            old(tx)@.inv() ==> final(tx)@.inv(),
    {
        tx.sender();
    }
}

/// What has come of the reply to a request, as the caller has it from
/// polling the channel on which the reply travels.
#[derive(Debug)]
pub enum Reply<R> {
    /// No reply yet.
    NotReady,
    /// The actor's reply.
    Ready(R),
    /// There will be no reply: the envelope was dropped, or the actor failed
    /// on it.
    Canceled,
}

/// A request: a message on its way to an actor, and the wait for the reply.
#[derive(Debug)]
pub enum Request<T> {
    /// The mailbox was full; the envelope waits here for room.
    Parked(T),
    /// The envelope is in the mailbox, or with the actor; the reply is
    /// awaited.
    Pending,
    /// The request is over: it was answered, or the mailbox has closed.
    Closed,
}

impl<T> Request<T> {
    /// Sending for a reply: the envelope goes into the mailbox if there is
    /// room, and is parked in the request if there is none. If the mailbox
    /// takes no mail, the request is closed from the start.
    pub open spec fn sent(tx: MailboxView<T>, msg: T) -> (MailboxView<T>, Request<T>) {
        match tx.try_send(msg) {
            (next, Ok(())) => (next, Request::Pending),
            (next, Err(SendError::Full(msg))) => (next, Request::Parked(msg)),
            (next, Err(SendError::Closed(_))) => (next, Request::Closed),
        }
    }

    /// What the reply makes of a request whose envelope is on its way.
    pub open spec fn settle<R>(reply: Reply<R>) -> (Self, Result<Async<R>, MailboxError>) {
        match reply {
            Reply::Ready(r) => (Request::Closed, Ok(Async::Ready(r))),
            Reply::NotReady => (Request::Pending, Ok(Async::NotReady)),
            Reply::Canceled => (Request::Closed, Err(MailboxError::Closed)),
        }
    }

    /// One poll of a request. A parked envelope is offered to the mailbox
    /// again: if it is taken, the reply is awaited; if the mailbox is still
    /// full, the envelope stays parked; if the mailbox has closed, so has the
    /// request. A request whose envelope is on its way goes by the reply: the
    /// reply itself, not ready, or closed when there will be none. A closed
    /// request stays closed.
    pub open spec fn spec_poll<R>(self, mailbox: MailboxView<T>, reply: Reply<R>) -> (
        Self,
        MailboxView<T>,
        Result<Async<R>, MailboxError>,
    ) {
        match self {
            Request::Parked(envelope) => match mailbox.try_send(envelope) {
                (next, Ok(())) => (Self::settle(reply).0, next, Self::settle(reply).1),
                (next, Err(SendError::Full(envelope))) => (
                    Request::Parked(envelope),
                    next,
                    Ok(Async::NotReady),
                ),
                (next, Err(SendError::Closed(_))) => (
                    Request::Closed,
                    next,
                    Err(MailboxError::Closed),
                ),
            },
            Request::Pending => (Self::settle(reply).0, mailbox, Self::settle(reply).1),
            Request::Closed => (Request::Closed, mailbox, Err(MailboxError::Closed)),
        }
    }

    /// Polls the request. `tx` is the mailbox that the request was sent to;
    /// `reply` is what polling the reply channel has given.
    pub fn poll<R>(&mut self, tx: &mut Mailbox<T>, reply: Reply<R>) -> (r: Result<
        Async<R>,
        MailboxError,
    >)
        ensures
            (*final(self), final(tx)@, r) == old(self).spec_poll(old(tx)@, reply),
            old(tx)@.inv() ==> final(tx)@.inv(),
    {
        let mut current = Request::Closed;
        core::mem::swap(self, &mut current);
        match current {
            Request::Parked(envelope) => match tx.try_send(envelope) {
                Ok(()) => Request::answer(self, reply),
                Err(SendError::Full(envelope)) => {
                    *self = Request::Parked(envelope);
                    Ok(Async::NotReady)
                },
                Err(SendError::Closed(_)) => Err(MailboxError::Closed),
            },
            Request::Pending => Request::answer(self, reply),
            Request::Closed => Err(MailboxError::Closed),
        }
    }

    fn answer<R>(request: &mut Request<T>, reply: Reply<R>) -> (r: Result<Async<R>, MailboxError>)
        ensures
            (*final(request), r) == Self::settle(reply),
    {
        match reply {
            Reply::Ready(value) => {
                *request = Request::Closed;
                Ok(Async::Ready(value))
            },
            Reply::NotReady => {
                *request = Request::Pending;
                Ok(Async::NotReady)
            },
            Reply::Canceled => {
                *request = Request::Closed;
                Err(MailboxError::Closed)
            },
        }
    }

    /// Cancelling: the request is over. An envelope that was still parked
    /// comes back and never reaches the actor; one that was sent stays sent.
    pub open spec fn cancelled(self) -> (Self, Option<T>) {
        (
            Request::Closed,
            match self {
                Request::Parked(envelope) => Some(envelope),
                _ => None,
            },
        )
    }

    /// Cancels the request, as when its owner drops it or a deadline of the
    /// owner's has passed. A parked envelope is handed back. An envelope that
    /// is already in the mailbox is handled all the same; only its reply
    /// finds nobody waiting.
    pub fn cancel(&mut self) -> (r: Option<T>)
        ensures
            (*final(self), r) == old(self).cancelled(),
    {
        let mut current = Request::Closed;
        core::mem::swap(self, &mut current);
        match current {
            Request::Parked(envelope) => Some(envelope),
            _ => None,
        }
    }

    /// Ends the request because a deadline of its owner has passed. The
    /// request is cancelled, a parked envelope is dropped, and the error to
    /// report is `Timeout`.
    pub fn expire(&mut self) -> (err: MailboxError)
        ensures
            *final(self) == old(self).cancelled().0,
            err == MailboxError::Timeout,
    {
        let _ = self.cancel();
        MailboxError::Timeout
    }

    /// A request ends with the reply or with `Closed`, and with nothing
    /// else: what it hands out as the reply is the reply that came, and it
    /// is not ready only while the reply is not, or while the envelope waits
    /// for room in a mailbox that is full.
    pub proof fn lemma_reply_or_closed<R>(self, mailbox: MailboxView<T>, reply: Reply<R>)
        ensures
            match self.spec_poll(mailbox, reply).2 {
                Ok(Async::Ready(r)) => reply == Reply::Ready(r) && !(self is Closed),
                Ok(Async::NotReady) => (reply is NotReady && !(self is Closed)) || (self is Parked
                    && mailbox.accepting() && mailbox.full()),
                Err(e) => e == MailboxError::Closed,
            },
    {
    }

    /// A request does not hang on an actor that is gone. Once the mailbox
    /// has lost its receiver, a request that is parked or closed ends with
    /// `Closed` at the next poll, and one that awaits its reply ends as soon
    /// as the reply channel tells what became of the reply.
    pub proof fn lemma_no_hang_after_stop<R>(self, mailbox: MailboxView<T>, reply: Reply<R>)
        requires
            !mailbox.open,
            self is Pending ==> !(reply is NotReady),
        ensures
            !(self.spec_poll(mailbox, reply).2 matches Ok(Async::NotReady)),
            self.spec_poll(mailbox, reply).0 is Closed,
            self.spec_poll(mailbox, reply).1 == mailbox,
    {
    }
}

} // verus!
