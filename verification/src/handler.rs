//! Messages, their handlers, and the envelopes in which messages travel.
//!
//! An envelope carries one message and, where the sender awaits a reply, the
//! sending half of the channel on which the reply goes back. To handle an
//! envelope is to call the actor's handler for the message and to see to the
//! reply: a reply that is there at once is sent at once; a reply that is
//! still to come is handed to the caller, who polls the future that will give
//! it.

use crate::actor::Actor;
use vstd::prelude::*;

verus! {

/// The sending half of a one-shot channel of the `futures` crate that can
/// cross threads, as a value that is carried through unread.
#[verifier::external_type_specification]
#[verifier::external_body]
#[verifier::reject_recursive_types(T)]
pub struct ExSender<T>(futures::sync::oneshot::Sender<T>);

/// A message: a value that is answered with a reply of type `Result`.
pub trait Message {
    /// The type of the reply.
    type Result;
}

/// What a handler gives for a message.
#[derive(Debug)]
pub enum Response<R, F> {
    /// The reply itself.
    Reply(R),
    /// A future that will give the reply.
    Future(F),
}

/// The ability of an actor to handle messages of type `M`.
pub trait Handler<M: Message>: Actor {
    /// The future with which the handler answers when the reply is not
    /// there at once.
    type Future;

    /// Handles the message. The handler has the actor and its context to
    /// itself for as long as it runs.
    fn handle(&mut self, msg: M, ctx: &mut Self::Context) -> Response<M::Result, Self::Future>;
}

/// A reply that is still to come: the future that will give it, and the
/// channel on which it is awaited, if it is awaited.
#[verifier::reject_recursive_types(R)]
pub struct Deferred<R, F> {
    /// The future that will give the reply.
    pub future: F,
    /// The channel on which the reply is awaited.
    pub reply: Option<futures::sync::oneshot::Sender<R>>,
}

/// A message on its way to an actor.
#[verifier::reject_recursive_types(M)]
pub struct Envelope<M: Message> {
    msg: M,
    reply: Option<futures::sync::oneshot::Sender<M::Result>>,
}

impl<M: Message> Envelope<M> {
    /// The message in the envelope.
    pub closed spec fn msg(&self) -> M {
        self.msg
    }

    /// The channel on which the reply is awaited, if it is awaited.
    pub closed spec fn reply(&self) -> Option<futures::sync::oneshot::Sender<M::Result>> {
        self.reply
    }

    /// Puts a message into an envelope. `reply` is the channel on which the
    /// sender awaits the reply; `None` if the sender awaits none.
    pub fn new(msg: M, reply: Option<futures::sync::oneshot::Sender<M::Result>>) -> (e: Self)
        ensures
            e.msg() == msg,
            e.reply() == reply,
    {
        Envelope { msg, reply }
    }

    /// Takes the envelope apart.
    pub fn into_parts(self) -> (r: (M, Option<futures::sync::oneshot::Sender<M::Result>>))
        ensures
            r == (self.msg(), self.reply()),
    {
        (self.msg, self.reply)
    }

    /// Hands the message to the actor's handler and sees to the reply, as
    /// [`route`] says. What comes back is the reply that is still to come,
    /// if the handler has answered with a future.
    pub fn handle<A: Handler<M>>(self, act: &mut A, ctx: &mut A::Context) -> (r: Option<
        Deferred<M::Result, A::Future>,
    >)
        ensures
            r matches Some(d) ==> d.reply == self.reply(),
    {
        let response = act.handle(self.msg, ctx);
        route(self.reply, response)
    }
}

/// Sees to the reply of a handler. A reply that is there is sent on the
/// channel, if there is one, and nothing is left to do. A future is handed
/// back together with the channel, for the caller to poll.
pub fn route<R, F>(
    reply: Option<futures::sync::oneshot::Sender<R>>,
    response: Response<R, F>,
) -> (r: Option<Deferred<R, F>>)
    ensures
        r == match response {
            Response::Reply(_) => None,
            Response::Future(future) => Some(Deferred { future, reply }),
        },
{
    match response {
        Response::Reply(value) => {
            let _ = respond(reply, value);
            None
        },
        Response::Future(future) => Some(Deferred { future, reply }),
    }
}

/// Sends a reply on the channel on which it is awaited. Where no reply is
/// awaited, the value is dropped. Tells whether the reply was sent; it is not
/// when nobody waits at the other end any more.
pub fn respond<R>(reply: Option<futures::sync::oneshot::Sender<R>>, value: R) -> (sent: bool)
    ensures
        reply is None ==> !sent,
{
    match reply {
        Some(tx) => delivered(send_reply(tx, value)),
        None => false,
    }
}

/// Tells whether a send on a one-shot channel has reached the receiver: it
/// has not when the value has come back.
pub fn delivered<R>(outcome: Result<(), R>) -> (sent: bool)
    ensures
        sent == (outcome is Ok),
{
    match outcome {
        Ok(()) => true,
        Err(_) => false,
    }
}

/// Sends a value on a one-shot channel, with
/// `futures::sync::oneshot::Sender::send`. That function stores the value for
/// the receiver and gives `Ok`, or gives the value back in `Err` when the
/// receiver is gone.
#[verifier::external_body]
fn send_reply<R>(tx: futures::sync::oneshot::Sender<R>, value: R) -> (r: Result<(), R>)
    ensures
        r matches Err(back) ==> back == value,
{
    tx.send(value)
}

} // verus!
