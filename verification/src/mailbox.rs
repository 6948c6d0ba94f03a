//! The bounded queue of envelopes that stands between producers and one actor.
//!
//! A mailbox has one receiver, the context of its actor, and any number of
//! registered producers. It counts its producers, so that the receiver learns
//! when nobody is left to write to it, and it remembers whether the receiver
//! is still there, so that producers learn when nobody is left to read.
//!
//! What a mailbox offers to everybody is the producers' side. Mail leaves a
//! mailbox, and a mailbox closes, only through the context or the supervisor
//! that owns it.

use crate::address::SendError;
use std::collections::VecDeque;
use vstd::prelude::*;

verus! {

/// The capacity of a mailbox for which none was chosen.
pub const DEFAULT_CAPACITY: usize = 16;

/// What a mailbox is, mathematically: its queue, its limits, and the record of
/// what went in and what came out.
pub struct MailboxView<T> {
    /// The envelopes that wait for the receiver, oldest first.
    pub queue: Seq<T>,
    /// How many envelopes `try_send` lets wait at once; 0 for no limit.
    pub capacity: nat,
    /// How many producers are registered.
    pub senders: nat,
    /// Whether the receiver is still there.
    pub open: bool,
    /// Every envelope the mailbox ever took, in the order of arrival.
    pub accepted: Seq<T>,
    /// Every envelope the mailbox ever handed to its receiver, in that order.
    pub delivered: Seq<T>,
}

/// One operation on a mailbox.
pub enum MailboxOp<T> {
    /// A producer puts a message in without regard to the capacity.
    DoSend(T),
    /// A producer puts a message in if there is room.
    TrySend(T),
    /// The receiver takes the oldest message.
    Recv,
    /// The receiver goes away.
    Close,
    /// A producer registers.
    Sender,
    /// A producer leaves.
    Release,
}

impl<T> MailboxOp<T> {
    /// Whether the operation is one of a producer. The others are the
    /// receiver's, and only the context or the supervisor that owns the
    /// mailbox performs them.
    pub open spec fn by_producer(self) -> bool {
        self is DoSend || self is TrySend || self is Sender || self is Release
    }
}

impl<T> MailboxView<T> {
    /// A fresh mailbox: open, empty, without producers.
    pub open spec fn fresh(capacity: nat) -> Self {
        MailboxView {
            queue: Seq::empty(),
            capacity,
            senders: 0,
            open: true,
            accepted: Seq::empty(),
            delivered: Seq::empty(),
        }
    }

    /// What holds of every mailbox: all that was delivered was accepted
    /// before, in the same order; an open mailbox still holds whatever it
    /// accepted and has not delivered; a closed one holds nothing.
    pub open spec fn inv(self) -> bool {
        &&& self.delivered.is_prefix_of(self.accepted)
        &&& self.open ==> self.accepted == self.delivered + self.queue
        &&& !self.open ==> self.queue.len() == 0
    }

    /// Mail is taken while the receiver is there and a producer is registered.
    pub open spec fn accepting(self) -> bool {
        self.open && self.senders > 0
    }

    /// A bounded mailbox is full when it holds as many envelopes as its
    /// capacity says; an unbounded one never is.
    pub open spec fn full(self) -> bool {
        self.capacity > 0 && self.queue.len() >= self.capacity
    }

    /// The mailbox with one more envelope at the end of the queue.
    pub open spec fn enqueue(self, msg: T) -> Self {
        MailboxView { queue: self.queue.push(msg), accepted: self.accepted.push(msg), ..self }
    }

    /// Sending without regard to the capacity: refused only by a mailbox that
    /// takes no mail.
    pub open spec fn do_send(self, msg: T) -> (Self, Result<(), SendError<T>>) {
        if self.accepting() {
            (self.enqueue(msg), Ok(()))
        } else {
            (self, Err(SendError::Closed(msg)))
        }
    }

    /// Sending within the capacity.
    pub open spec fn try_send(self, msg: T) -> (Self, Result<(), SendError<T>>) {
        if !self.accepting() {
            (self, Err(SendError::Closed(msg)))
        } else if self.full() {
            (self, Err(SendError::Full(msg)))
        } else {
            (self.enqueue(msg), Ok(()))
        }
    }

    /// Receiving: the oldest envelope leaves the queue, if there is one.
    pub open spec fn recv(self) -> (Self, Option<T>) {
        if self.queue.len() > 0 {
            (
                MailboxView {
                    queue: self.queue.drop_first(),
                    delivered: self.delivered.push(self.queue[0]),
                    ..self
                },
                Some(self.queue[0]),
            )
        } else {
            (self, None)
        }
    }

    /// The receiver goes away: the mailbox closes and what waited in it is
    /// dropped.
    pub open spec fn close(self) -> Self {
        MailboxView { queue: Seq::empty(), open: false, ..self }
    }

    /// One more producer.
    pub open spec fn sender(self) -> Self {
        MailboxView { senders: self.senders + 1, ..self }
    }

    /// One producer fewer, if there was one.
    pub open spec fn release(self) -> Self {
        MailboxView { senders: if self.senders > 0 { (self.senders - 1) as nat } else { 0 }, ..self }
    }

    /// The mailbox after one operation.
    pub open spec fn apply(self, op: MailboxOp<T>) -> Self {
        match op {
            MailboxOp::DoSend(msg) => self.do_send(msg).0,
            MailboxOp::TrySend(msg) => self.try_send(msg).0,
            MailboxOp::Recv => self.recv().0,
            MailboxOp::Close => self.close(),
            MailboxOp::Sender => self.sender(),
            MailboxOp::Release => self.release(),
        }
    }

    /// The mailbox after a series of operations.
    pub open spec fn run(self, ops: Seq<MailboxOp<T>>) -> Self
        decreases ops.len(),
    {
        if ops.len() == 0 {
            self
        } else {
            self.run(ops.drop_last()).apply(ops.last())
        }
    }

    /// No operation breaks what holds of every mailbox.
    pub proof fn lemma_apply_keeps_inv(self, op: MailboxOp<T>)
        requires
            self.inv(),
        ensures
            self.apply(op).inv(),
    {
        let next = self.apply(op);
        match op {
            MailboxOp::DoSend(msg) => {
                if self.accepting() {
                    assert(next.accepted =~= next.delivered + next.queue);
                }
            },
            MailboxOp::TrySend(msg) => {
                if self.accepting() && !self.full() {
                    assert(next.accepted =~= next.delivered + next.queue);
                }
            },
            MailboxOp::Recv => {
                if self.queue.len() > 0 {
                    assert(next.accepted =~= next.delivered + next.queue);
                    assert(next.delivered =~= next.accepted.subrange(
                        0,
                        next.delivered.len() as int,
                    ));
                }
            },
            MailboxOp::Close => {},
            MailboxOp::Sender => {},
            MailboxOp::Release => {},
        }
    }

    /// Whatever is done to a fresh mailbox, in whatever order, the mailbox
    /// stays within what holds of every mailbox.
    pub proof fn lemma_run_keeps_inv(capacity: nat, ops: Seq<MailboxOp<T>>)
        ensures
            Self::fresh(capacity).run(ops).inv(),
        decreases ops.len(),
    {
        if ops.len() == 0 {
            assert(Self::fresh(capacity).accepted =~= Self::fresh(capacity).delivered
                + Self::fresh(capacity).queue);
        } else {
            Self::lemma_run_keeps_inv(capacity, ops.drop_last());
            Self::fresh(capacity).run(ops.drop_last()).lemma_apply_keeps_inv(ops.last());
        }
    }

    /// First in, first out: whatever is done to a fresh mailbox, the envelope
    /// that it delivers as its `i`-th is the one that it accepted as its
    /// `i`-th. So of two messages that one producer sends one after the other,
    /// the first is handed to the actor first.
    pub proof fn lemma_fifo(capacity: nat, ops: Seq<MailboxOp<T>>, i: int)
        requires
            0 <= i < Self::fresh(capacity).run(ops).delivered.len(),
        ensures
            i < Self::fresh(capacity).run(ops).accepted.len(),
            Self::fresh(capacity).run(ops).delivered[i] == Self::fresh(capacity).run(
                ops,
            ).accepted[i],
    {
        Self::lemma_run_keeps_inv(capacity, ops);
    }

    /// Backpressure shows in `try_send` and nowhere else: `do_send` never
    /// finds a mailbox full, and `try_send` finds it full only if it is
    /// bounded and holds as much as its capacity says.
    pub proof fn lemma_backpressure(self, msg: T)
        ensures
            !(self.do_send(msg).1 matches Err(SendError::Full(_))),
            self.try_send(msg).1 matches Err(SendError::Full(_)) ==> self.capacity > 0
                && self.queue.len() >= self.capacity,
            self.accepting() ==> self.do_send(msg).1 is Ok,
            self.accepting() && (self.capacity == 0 || self.queue.len() < self.capacity)
                ==> self.try_send(msg).1 is Ok,
    {
    }

    /// Nothing reaches an actor that no producer could have sent: with no
    /// producer registered, sending is refused and the queue stays as it is.
    pub proof fn lemma_no_producer_no_mail(self, msg: T)
        requires
            self.senders == 0,
        ensures
            self.do_send(msg) == (self, Err::<(), SendError<T>>(SendError::Closed(msg))),
            self.try_send(msg) == (self, Err::<(), SendError<T>>(SendError::Closed(msg))),
    {
    }
}

/// A mailbox: a queue of envelopes of type `T` with one receiver.
pub struct Mailbox<T> {
    queue: VecDeque<T>,
    capacity: usize,
    senders: usize,
    open: bool,
    accepted: Ghost<Seq<T>>,
    delivered: Ghost<Seq<T>>,
}

impl<T> View for Mailbox<T> {
    type V = MailboxView<T>;

    closed spec fn view(&self) -> MailboxView<T> {
        MailboxView {
            queue: self.queue@,
            capacity: self.capacity as nat,
            senders: self.senders as nat,
            open: self.open,
            accepted: self.accepted@,
            delivered: self.delivered@,
        }
    }
}

impl<T> Mailbox<T> {
    /// Makes an open, empty mailbox without producers. A capacity of 0 means
    /// that the mailbox is unbounded.
    pub fn new(capacity: usize) -> (m: Self)
        ensures
            m@ == MailboxView::<T>::fresh(capacity as nat),
            m@.inv(),
    {
        let m = Mailbox {
            queue: VecDeque::new(),
            capacity,
            senders: 0,
            open: true,
            accepted: Ghost(Seq::empty()),
            delivered: Ghost(Seq::empty()),
        };
        assert(m@.accepted =~= m@.delivered + m@.queue);
        m
    }

    /// Makes a mailbox of the default capacity.
    pub fn with_default_capacity() -> (m: Self)
        ensures
            m@ == MailboxView::<T>::fresh(DEFAULT_CAPACITY as nat),
            m@.inv(),
    {
        Mailbox::new(DEFAULT_CAPACITY)
    }

    /// The capacity; 0 for an unbounded mailbox.
    pub fn capacity(&self) -> (r: usize)
        ensures
            r == self@.capacity,
    {
        self.capacity
    }

    /// How many envelopes wait.
    pub fn len(&self) -> (r: usize)
        ensures
            r == self@.queue.len(),
    {
        self.queue.len()
    }

    /// Whether no envelope waits.
    pub fn is_empty(&self) -> (r: bool)
        ensures
            r == (self@.queue.len() == 0),
    {
        self.queue.len() == 0
    }

    /// Whether `try_send` would find the mailbox full.
    pub fn is_full(&self) -> (r: bool)
        ensures
            r == self@.full(),
    {
        self.capacity != 0 && self.queue.len() >= self.capacity
    }

    /// How many producers are registered.
    pub fn senders(&self) -> (r: usize)
        ensures
            r == self@.senders,
    {
        self.senders
    }

    /// What a producer asks: is the receiver still there?
    pub fn connected(&self) -> (r: bool)
        ensures
            r == self@.open,
    {
        self.open
    }

    /// What the receiver asks: is any producer left?
    pub fn has_senders(&self) -> (r: bool)
        ensures
            r == (self@.senders > 0),
    {
        self.senders > 0
    }

    /// Registers one more producer.
    pub fn sender(&mut self)
        requires
            old(self)@.senders < usize::MAX,
        ensures
            final(self)@ == old(self)@.sender(),
            old(self)@.inv() ==> final(self)@.inv(),
    {
        self.senders = self.senders + 1;
    }

    /// Takes one producer off the count; does nothing when none is registered.
    pub fn release(&mut self)
        ensures
            final(self)@ == old(self)@.release(),
            old(self)@.inv() ==> final(self)@.inv(),
    {
        if self.senders > 0 {
            self.senders = self.senders - 1;
        }
    }

    /// Puts a message into the queue without regard to the capacity. It is
    /// refused, and handed back, only when the mailbox takes no mail.
    pub fn do_send(&mut self, msg: T) -> (r: Result<(), SendError<T>>)
        ensures
            (final(self)@, r) == old(self)@.do_send(msg),
            old(self)@.inv() ==> final(self)@.inv(),
    {
        proof {
            if self@.inv() {
                self@.lemma_apply_keeps_inv(MailboxOp::DoSend(msg));
            }
        }
        if !self.open || self.senders == 0 {
            return Err(SendError::Closed(msg));
        }
        self.accepted = Ghost(self.accepted@.push(msg));
        self.queue.push_back(msg);
        Ok(())
    }

    /// Puts a message into the queue if there is room. Otherwise the message
    /// comes back: in `Closed` when the mailbox takes no mail, in `Full` when
    /// it is bounded and holds as much as it may.
    pub fn try_send(&mut self, msg: T) -> (r: Result<(), SendError<T>>)
        ensures
            (final(self)@, r) == old(self)@.try_send(msg),
            old(self)@.inv() ==> final(self)@.inv(),
    {
        proof {
            if self@.inv() {
                self@.lemma_apply_keeps_inv(MailboxOp::TrySend(msg));
            }
        }
        if !self.open || self.senders == 0 {
            return Err(SendError::Closed(msg));
        }
        if self.capacity != 0 && self.queue.len() >= self.capacity {
            return Err(SendError::Full(msg));
        }
        self.accepted = Ghost(self.accepted@.push(msg));
        self.queue.push_back(msg);
        Ok(())
    }

    /// Takes the oldest envelope out of the queue, if there is one.
    pub(crate) fn recv(&mut self) -> (r: Option<T>)
        ensures
            (final(self)@, r) == old(self)@.recv(),
            old(self)@.inv() ==> final(self)@.inv(),
    {
        proof {
            if self@.inv() {
                self@.lemma_apply_keeps_inv(MailboxOp::Recv);
            }
        }
        let r = self.queue.pop_front();
        proof {
            if r is Some {
                self.delivered@ = self.delivered@.push(r->0);
            }
        }
        r
    }

    /// Closes the mailbox when its receiver goes away. The envelopes that
    /// waited are dropped, and with them their reply channels.
    pub(crate) fn close(&mut self)
        ensures
            final(self)@ == old(self)@.close(),
            old(self)@.inv() ==> final(self)@.inv(),
    {
        self.open = false;
        self.queue.clear();
    }
}

} // verus!
