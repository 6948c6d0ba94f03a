//! The supervisor: a driver that restarts its actor and keeps the actor's
//! addresses valid.
//!
//! A supervisor owns the context of its actor and, apart from it, the two
//! mailboxes that the actor's addresses write to. When the context ends,
//! cleanly or by a failure, and a producer is still there, the supervisor
//! puts a fresh context in its place. The mailboxes are not touched by that:
//! what waited in them waits on, and the addresses that were handed out reach
//! the restarted actor.
//!
//! Like a context, a supervisor decides and the caller performs: each call of
//! [`Supervisor::poll`] yields one [`Supervision`].

use crate::address::{Address, LocalAddress};
use crate::context::{Context, ContextOp, ContextView, Step};
use crate::mailbox::{Mailbox, MailboxOp, MailboxView};
use vstd::prelude::*;

verus! {

/// The sending half of a one-shot channel of the `futures` crate, as a value
/// that is carried through unread.
#[verifier::external_type_specification]
#[verifier::external_body]
#[verifier::reject_recursive_types(T)]
pub struct ExLocalSender<T>(futures::unsync::oneshot::Sender<T>);

/// What travels through the local mailbox of a supervisor.
#[derive(Debug)]
pub enum LocalMail<T> {
    /// A holder of a local address asks for a cross-thread address, and
    /// expects it on this channel.
    Upgrade(futures::unsync::oneshot::Sender<Address>),
    /// An envelope for the actor.
    Envelope(T),
}

/// One thing that can happen to a supervisor.
pub enum SupervisorOp<T> {
    /// The supervisor takes a step.
    Poll,
    /// A request for a cross-thread address is answered; the address
    /// arrives, or does not.
    Upgrade(bool),
    /// A cross-thread address is handed out.
    RemoteAddress,
    /// A cross-thread address is taken back.
    ReleaseRemote,
    /// Something happens to the supervised context.
    Context(ContextOp<T>),
    /// A producer does something to the local mailbox.
    Local(MailboxOp<LocalMail<T>>),
    /// A producer does something to the cross-thread mailbox, if there is
    /// one.
    Sync(MailboxOp<T>),
}

/// How far a supervisor has come in one round of its work.
#[derive(Debug, Clone, Copy, PartialEq, Eq, Structural)]
pub enum Round {
    /// At the beginning: the supervisor looks whether producers are left.
    Start,
    /// Driving the supervised context.
    Context,
    /// Draining the local mailbox.
    Local,
    /// Draining the cross-thread mailbox.
    Sync,
}

/// One thing that a supervisor asks of its caller.
#[derive(Debug)]
pub enum Supervision<T> {
    /// Perform this step of the supervised context.
    Context(Step<T>),
    /// Hand this envelope to the actor.
    Handle(T),
    /// Answer this request for a cross-thread address, which
    /// [`Supervisor::upgrade`] does.
    Upgrade(futures::unsync::oneshot::Sender<Address>),
    /// The actor's context was replaced by a fresh one: make the actor for
    /// it and call the actor's `restarting` hook.
    Restarting,
    /// The round is over, but work is left: poll again soon.
    Yield,
    /// The round is over: poll again when something wakes the supervisor.
    NotReady,
    /// The supervisor has ended: no producer is left and the actor has
    /// stopped.
    Ready,
}

/// What a supervisor is, mathematically.
pub struct SupervisorView<T> {
    /// The context of the supervised actor.
    pub ctx: ContextView<T>,
    /// The local mailbox that the actor's local addresses write to.
    pub unsync_msgs: MailboxView<LocalMail<T>>,
    /// The cross-thread mailbox, once there is one.
    pub sync_msgs: Option<MailboxView<T>>,
    /// How far the current round has come.
    pub round: Round,
    /// Whether nothing was handed out since the context last ended a cycle.
    pub not_ready: bool,
    /// Whether the supervisor has ended.
    pub done: bool,
    /// How often the actor was restarted.
    pub restarts: nat,
}

impl<T> SupervisorView<T> {
    /// A supervisor as `start` makes it: a fresh context with one local
    /// address, which the supervisor keeps, and one producer on the
    /// supervisor's local mailbox.
    pub open spec fn started() -> Self {
        SupervisorView {
            ctx: ContextView::fresh(crate::mailbox::DEFAULT_CAPACITY as nat).address(),
            unsync_msgs: MailboxView::fresh(0).sender(),
            sync_msgs: None,
            round: Round::Start,
            not_ready: true,
            done: false,
            restarts: 0,
        }
    }

    /// A supervisor as `start_in` makes it: as above, but with its one
    /// producer on the cross-thread mailbox.
    pub open spec fn started_in() -> Self {
        SupervisorView {
            ctx: ContextView::fresh(crate::mailbox::DEFAULT_CAPACITY as nat).address(),
            unsync_msgs: MailboxView::fresh(0),
            sync_msgs: Some(MailboxView::fresh(0).sender()),
            round: Round::Start,
            not_ready: true,
            done: false,
            restarts: 0,
        }
    }

    /// A supervisor at its start, for producers on other threads or on the
    /// actor's own.
    pub open spec fn begun(remote: bool) -> Self {
        if remote {
            Self::started_in()
        } else {
            Self::started()
        }
    }

    /// Whether a producer is left on either mailbox of the supervisor.
    pub open spec fn connected(self) -> bool {
        self.unsync_msgs.senders > 0 || (self.sync_msgs matches Some(s) && s.senders > 0)
    }

    /// Handing out a cross-thread address: one more producer on the
    /// cross-thread mailbox, which is made on first use, without a bound.
    pub open spec fn remote_address(self) -> Self {
        SupervisorView {
            sync_msgs: Some(
                match self.sync_msgs {
                    Some(s) => s.sender(),
                    None => MailboxView::fresh(0).sender(),
                },
            ),
            ..self
        }
    }

    /// Taking back a cross-thread address.
    pub open spec fn release_remote(self) -> Self {
        SupervisorView {
            sync_msgs: match self.sync_msgs {
                Some(s) => Some(s.release()),
                None => None,
            },
            ..self
        }
    }

    /// Answering a request for a cross-thread address: the address is
    /// handed out, and taken back at once if nobody waited for it any more.
    pub open spec fn upgrade(self, delivered: bool) -> Self {
        if delivered {
            self.remote_address()
        } else {
            self.remote_address().release_remote()
        }
    }

    /// Restarting: a fresh context takes the place of the old one, and the
    /// supervisor takes a local address of it. Nothing else changes.
    pub open spec fn restart(self) -> Self {
        SupervisorView {
            ctx: ContextView::fresh(self.ctx.local.capacity).address(),
            round: Round::Start,
            restarts: self.restarts + 1,
            ..self
        }
    }

    /// The supervisor at its end: its mailboxes closed.
    pub open spec fn finish(self) -> Self {
        SupervisorView {
            unsync_msgs: self.unsync_msgs.close(),
            sync_msgs: match self.sync_msgs {
                Some(s) => Some(s.close()),
                None => None,
            },
            round: Round::Start,
            done: true,
            ..self
        }
    }

    /// How a round ends when it is not to go on at once.
    pub open spec fn rest(self) -> (Self, Supervision<T>) {
        (
            SupervisorView { round: Round::Start, ..self },
            if self.ctx.busy() {
                Supervision::Yield
            } else {
                Supervision::NotReady
            },
        )
    }

    /// How much may still happen within one step, for each place in the
    /// round: a bound that shows that every step comes to an end.
    pub open spec fn budget(self, round: Round) -> nat {
        match round {
            Round::Start => 6,
            Round::Context => 5,
            Round::Local => if self.not_ready {
                4
            } else {
                8
            },
            Round::Sync => if self.not_ready {
                3
            } else {
                7
            },
        }
    }

    /// The round from the cross-thread mailbox on. While the actor is alive
    /// and nothing holds up its mail, the oldest envelope is handed out. When
    /// the mailbox is empty the round is over; if anything was handed out in
    /// it, the next round begins at once.
    pub open spec fn from_sync(self) -> (Self, Supervision<T>)
        decreases self.budget(Round::Sync),
    {
        if self.sync_msgs is Some && !self.ctx.alive() {
            if self.not_ready {
                self.rest()
            } else {
                SupervisorView { round: Round::Start, ..self }.from_start()
            }
        } else if self.sync_msgs is Some && self.ctx.waiting() {
            self.rest()
        } else if self.sync_msgs is Some && self.sync_msgs->0.queue.len() > 0 {
            (
                SupervisorView {
                    sync_msgs: Some(self.sync_msgs->0.recv().0),
                    not_ready: false,
                    ..self
                },
                Supervision::Handle(self.sync_msgs->0.queue[0]),
            )
        } else if self.not_ready {
            self.rest()
        } else {
            SupervisorView { round: Round::Start, ..self }.from_start()
        }
    }

    /// The round from the local mailbox on. While the actor is alive and
    /// nothing holds up its mail, the oldest piece of mail is handed out: an
    /// envelope for the actor, or a request for a cross-thread address.
    pub open spec fn from_local(self) -> (Self, Supervision<T>)
        decreases self.budget(Round::Local),
    {
        if !self.ctx.alive() {
            if self.not_ready {
                self.rest()
            } else {
                SupervisorView { round: Round::Start, ..self }.from_start()
            }
        } else if self.ctx.waiting() {
            self.rest()
        } else if self.unsync_msgs.queue.len() > 0 {
            (
                SupervisorView {
                    unsync_msgs: self.unsync_msgs.recv().0,
                    not_ready: false,
                    ..self
                },
                match self.unsync_msgs.queue[0] {
                    LocalMail::Upgrade(reply) => Supervision::Upgrade(reply),
                    LocalMail::Envelope(envelope) => Supervision::Handle(envelope),
                },
            )
        } else {
            SupervisorView { round: Round::Sync, ..self }.from_sync()
        }
    }

    /// The round from the supervised context on. The context takes one step.
    /// What it asks for is passed on. When it ends its cycle, the mailboxes of
    /// the supervisor have their turn, unless a sub-future holds up the mail.
    /// When the context has ended, the supervisor ends too if no producer is
    /// left, and restarts the actor otherwise.
    pub open spec fn from_context(self) -> (Self, Supervision<T>)
        decreases self.budget(Round::Context),
    {
        let (ctx, step) = self.ctx.poll();
        let next = SupervisorView { ctx, round: Round::Context, ..self };
        match step {
            Step::Yield | Step::NotReady => {
                if ctx.waiting() {
                    next.rest()
                } else {
                    SupervisorView { round: Round::Local, not_ready: true, ..next }.from_local()
                }
            },
            Step::Ready | Step::Failed => {
                if !self.connected() {
                    (next.finish(), Supervision::Ready)
                } else {
                    (next.restart(), Supervision::Restarting)
                }
            },
            _ => (next, Supervision::Context(step)),
        }
    }

    /// The round from its beginning: a supervisor that has lost its producers
    /// tells the actor to stop.
    pub open spec fn from_start(self) -> (Self, Supervision<T>)
        decreases self.budget(Round::Start),
    {
        SupervisorView {
            ctx: if self.connected() {
                self.ctx
            } else {
                self.ctx.stop()
            },
            round: Round::Context,
            ..self
        }.from_context()
    }

    /// One step of the supervisor.
    pub open spec fn poll(self) -> (Self, Supervision<T>) {
        if self.done {
            (self, Supervision::Ready)
        } else {
            match self.round {
                Round::Start => self.from_start(),
                Round::Context => self.from_context(),
                Round::Local => self.from_local(),
                Round::Sync => self.from_sync(),
            }
        }
    }

    /// What holds of every supervisor: its parts are in order, and its
    /// mailboxes are open for as long as it lives.
    pub open spec fn inv(self) -> bool {
        &&& self.ctx.inv()
        &&& self.unsync_msgs.inv()
        &&& self.sync_msgs matches Some(s) ==> s.inv()
        &&& !self.done ==> self.unsync_msgs.open
        &&& !self.done ==> (self.sync_msgs matches Some(s) ==> s.open)
    }

    /// How the mailboxes of a supervisor after some steps relate to those of
    /// the supervisor `before`: the same producers; the same mail accepted;
    /// and, unless the supervisor has ended for want of producers, the
    /// mailboxes still open.
    pub open spec fn survives(self, before: Self) -> bool {
        &&& self.unsync_msgs.senders == before.unsync_msgs.senders
        &&& self.unsync_msgs.accepted == before.unsync_msgs.accepted
        &&& self.unsync_msgs.capacity == before.unsync_msgs.capacity
        &&& before.unsync_msgs.delivered.is_prefix_of(self.unsync_msgs.delivered)
        &&& self.sync_msgs is Some == before.sync_msgs is Some
        &&& self.sync_msgs matches Some(s) ==> {
            &&& s.senders == before.sync_msgs->0.senders
            &&& s.accepted == before.sync_msgs->0.accepted
            &&& s.capacity == before.sync_msgs->0.capacity
            &&& before.sync_msgs->0.delivered.is_prefix_of(s.delivered)
        }
        &&& self.done ==> !before.connected()
        &&& self.restarts >= before.restarts
    }

    /// A restart leaves the mailboxes of the supervisor exactly as they are:
    /// the addresses stay valid and no mail is lost.
    pub proof fn lemma_restart_keeps_mail(self)
        requires
            self.inv(),
            !self.done,
        ensures
            self.restart().unsync_msgs == self.unsync_msgs,
            self.restart().sync_msgs == self.sync_msgs,
            self.restart().connected() == self.connected(),
            self.restart().inv(),
            !self.restart().done,
    {
        let fresh = ContextView::<T>::fresh(self.ctx.local.capacity);
        assert(fresh.local.accepted =~= fresh.local.delivered + fresh.local.queue);
        assert(fresh.inv());
    }

    /// The round from the cross-thread mailbox on keeps what holds of every
    /// supervisor, and does no more to its mailboxes than to hand out mail.
    pub proof fn lemma_from_sync(self)
        requires
            self.inv(),
            !self.done,
        ensures
            self.from_sync().0.inv(),
            self.from_sync().0.survives(self),
        decreases self.budget(Round::Sync),
    {
        if self.sync_msgs is Some && !self.ctx.alive() {
            if !self.not_ready {
                SupervisorView { round: Round::Start, ..self }.lemma_from_start();
            }
        } else if self.sync_msgs is Some && self.ctx.waiting() {
        } else if self.sync_msgs is Some && self.sync_msgs->0.queue.len() > 0 {
            self.sync_msgs->0.lemma_apply_keeps_inv(MailboxOp::Recv);
        } else if !self.not_ready {
            SupervisorView { round: Round::Start, ..self }.lemma_from_start();
        }
    }

    /// The round from the local mailbox on keeps what holds of every
    /// supervisor, and does no more to its mailboxes than to hand out mail.
    pub proof fn lemma_from_local(self)
        requires
            self.inv(),
            !self.done,
        ensures
            self.from_local().0.inv(),
            self.from_local().0.survives(self),
        decreases self.budget(Round::Local),
    {
        if !self.ctx.alive() {
            if !self.not_ready {
                SupervisorView { round: Round::Start, ..self }.lemma_from_start();
            }
        } else if self.ctx.waiting() {
        } else if self.unsync_msgs.queue.len() > 0 {
            self.unsync_msgs.lemma_apply_keeps_inv(MailboxOp::Recv);
        } else {
            SupervisorView { round: Round::Sync, ..self }.lemma_from_sync();
        }
    }

    /// The round from the supervised context on keeps what holds of every
    /// supervisor, and does no more to its mailboxes than to hand out mail.
    pub proof fn lemma_from_context(self)
        requires
            self.inv(),
            !self.done,
        ensures
            self.from_context().0.inv(),
            self.from_context().0.survives(self),
        decreases self.budget(Round::Context),
    {
        self.ctx.lemma_poll_keeps_inv();
        let (ctx, step) = self.ctx.poll();
        let next = SupervisorView { ctx, round: Round::Context, ..self };
        match step {
            Step::Yield | Step::NotReady => {
                if !ctx.waiting() {
                    SupervisorView { round: Round::Local, not_ready: true, ..next }.lemma_from_local();
                }
            },
            Step::Ready | Step::Failed => {
                if self.connected() {
                    next.lemma_restart_keeps_mail();
                }
            },
            _ => {},
        }
    }

    /// The round from its beginning keeps what holds of every supervisor,
    /// and does no more to its mailboxes than to hand out mail.
    pub proof fn lemma_from_start(self)
        requires
            self.inv(),
            !self.done,
        ensures
            self.from_start().0.inv(),
            self.from_start().0.survives(self),
        decreases self.budget(Round::Start),
    {
        SupervisorView {
            ctx: if self.connected() {
                self.ctx
            } else {
                self.ctx.stop()
            },
            round: Round::Context,
            ..self
        }.lemma_from_context();
    }

    /// A step keeps what holds of every supervisor.
    pub proof fn lemma_poll_keeps_inv(self)
        requires
            self.inv(),
        ensures
            self.poll().0.inv(),
    {
        if !self.done {
            match self.round {
                Round::Start => self.lemma_from_start(),
                Round::Context => self.lemma_from_context(),
                Round::Local => self.lemma_from_local(),
                Round::Sync => self.lemma_from_sync(),
            }
        }
    }

    /// Whether the supervisor has room for what is to happen to it.
    pub open spec fn admits(self, op: SupervisorOp<T>) -> bool {
        match op {
            SupervisorOp::Upgrade(_) | SupervisorOp::RemoteAddress => (
            self.sync_msgs matches Some(s) ==> s.senders < usize::MAX),
            SupervisorOp::Context(op) => self.ctx.admits(op),
            SupervisorOp::Local(op) => op.by_producer() && (op is Sender
                ==> self.unsync_msgs.senders < usize::MAX),
            SupervisorOp::Sync(op) => op.by_producer() && (op is Sender ==> (
            self.sync_msgs matches Some(s) ==> s.senders < usize::MAX)),
            _ => true,
        }
    }

    /// The supervisor after something has happened to it.
    pub open spec fn apply(self, op: SupervisorOp<T>) -> Self {
        match op {
            SupervisorOp::Poll => self.poll().0,
            SupervisorOp::Upgrade(delivered) => self.upgrade(delivered),
            SupervisorOp::RemoteAddress => self.remote_address(),
            SupervisorOp::ReleaseRemote => self.release_remote(),
            SupervisorOp::Context(op) => SupervisorView { ctx: self.ctx.apply(op), ..self },
            SupervisorOp::Local(op) => SupervisorView {
                unsync_msgs: self.unsync_msgs.apply(op),
                ..self
            },
            SupervisorOp::Sync(op) => SupervisorView {
                sync_msgs: match self.sync_msgs {
                    Some(s) => Some(s.apply(op)),
                    None => None,
                },
                ..self
            },
        }
    }

    /// Whether a series of happenings can befall a supervisor, one after the
    /// other.
    pub open spec fn admits_all(self, ops: Seq<SupervisorOp<T>>) -> bool
        decreases ops.len(),
    {
        ops.len() > 0 ==> self.admits_all(ops.drop_last()) && self.run(ops.drop_last()).admits(
            ops.last(),
        )
    }

    /// The supervisor after a series of happenings.
    pub open spec fn run(self, ops: Seq<SupervisorOp<T>>) -> Self
        decreases ops.len(),
    {
        if ops.len() == 0 {
            self
        } else {
            self.run(ops.drop_last()).apply(ops.last())
        }
    }

    /// Nothing that happens to a supervisor breaks what holds of every
    /// supervisor.
    pub proof fn lemma_apply_keeps_inv(self, op: SupervisorOp<T>)
        requires
            self.inv(),
            self.admits(op),
        ensures
            self.apply(op).inv(),
    {
        let fresh = MailboxView::<T>::fresh(0);
        assert(fresh.accepted =~= fresh.delivered + fresh.queue);
        match op {
            SupervisorOp::Poll => self.lemma_poll_keeps_inv(),
            SupervisorOp::Context(op) => self.ctx.lemma_apply_keeps_inv(op),
            SupervisorOp::Local(op) => self.unsync_msgs.lemma_apply_keeps_inv(op),
            SupervisorOp::Sync(op) => {
                if self.sync_msgs is Some {
                    self.sync_msgs->0.lemma_apply_keeps_inv(op);
                }
            },
            _ => {},
        }
    }

    /// Whatever happens to a supervisor from its start on, in whatever
    /// order, the supervisor stays within what holds of every supervisor.
    pub proof fn lemma_run_keeps_inv(remote: bool, ops: Seq<SupervisorOp<T>>)
        requires
            Self::begun(remote).admits_all(ops),
        ensures
            Self::begun(remote).run(ops).inv(),
        decreases ops.len(),
    {
        if ops.len() == 0 {
            let fresh = MailboxView::<T>::fresh(0);
            assert(fresh.accepted =~= fresh.delivered + fresh.queue);
            let local = MailboxView::<LocalMail<T>>::fresh(0);
            assert(local.accepted =~= local.delivered + local.queue);
            let own = MailboxView::<T>::fresh(crate::mailbox::DEFAULT_CAPACITY as nat);
            assert(own.accepted =~= own.delivered + own.queue);
        } else {
            Self::lemma_run_keeps_inv(remote, ops.drop_last());
            Self::begun(remote).run(ops.drop_last()).lemma_apply_keeps_inv(ops.last());
        }
    }

    /// Supervisor stability: whatever happens to a supervisor from its start
    /// on, and however often the actor fails and is restarted, the mailboxes
    /// of a supervisor that has not ended are open, so that the addresses
    /// that were handed out stay connected; and what the supervisor has
    /// handed to the actor is, piece by piece and in the same order, what
    /// the mailboxes have accepted.
    pub proof fn lemma_supervisor_stability(remote: bool, ops: Seq<SupervisorOp<T>>)
        requires
            Self::begun(remote).admits_all(ops),
        ensures
            ({
                let now = Self::begun(remote).run(ops);
                &&& !now.done ==> now.unsync_msgs.open && (now.sync_msgs matches Some(s) ==> s.open)
                &&& now.unsync_msgs.delivered.is_prefix_of(now.unsync_msgs.accepted)
                &&& now.sync_msgs matches Some(s) ==> s.delivered.is_prefix_of(s.accepted)
            }),
    {
        Self::lemma_run_keeps_inv(remote, ops);
    }

    /// Addresses outlive the actor: as long as a producer is registered with
    /// the supervisor, no step ends the supervisor or closes a mailbox,
    /// whatever becomes of the actor. No step changes which producers are
    /// registered, and none takes mail out of a mailbox but to hand it out,
    /// the oldest first.
    pub proof fn lemma_addresses_stay_valid(self)
        requires
            self.inv(),
            !self.done,
        ensures
            self.poll().0.survives(self),
            self.connected() ==> !self.poll().0.done && self.poll().0.connected()
                && self.poll().0.unsync_msgs.open && (self.poll().0.sync_msgs matches Some(s)
                ==> s.open),
    {
        match self.round {
            Round::Start => self.lemma_from_start(),
            Round::Context => self.lemma_from_context(),
            Round::Local => self.lemma_from_local(),
            Round::Sync => self.lemma_from_sync(),
        }
    }

    /// An actor that has ended is restarted by the very next round, as
    /// long as a producer is left: the supervisor puts a fresh context, not
    /// yet started, in the place of the old one and leaves its own mailboxes
    /// as they are, so that mail that waited, and mail that is sent later to
    /// the same addresses, reaches the new actor.
    pub proof fn lemma_ended_actor_is_restarted(self)
        requires
            self.inv(),
            !self.done,
            self.connected(),
            self.ctx.finished,
            self.round is Start || self.round is Context,
        ensures
            self.poll().1 is Restarting,
            self.poll().0.ctx == ContextView::<T>::fresh(self.ctx.local.capacity).address(),
            self.poll().0.unsync_msgs == self.unsync_msgs,
            self.poll().0.sync_msgs == self.sync_msgs,
            self.poll().0.restarts == self.restarts + 1,
    {
    }

    /// A supervisor that has lost its last producer tells the actor to stop,
    /// and ends when the actor has ended.
    pub proof fn lemma_abandoned_supervisor_ends(self)
        requires
            self.inv(),
            !self.done,
            !self.connected(),
            self.round is Start,
        ensures
            self.ctx.finished ==> self.poll().1 is Ready && self.poll().0.done
                && !self.poll().0.unsync_msgs.open,
            !self.ctx.finished ==> self.poll().0.ctx.stop_requested
                || self.poll().0.ctx.state.spec_stopping(),
    {
    }

    /// The mail of a supervised actor is handed out in the order in which it
    /// was accepted, however often the actor was restarted in between.
    pub proof fn lemma_supervised_fifo(self, i: int)
        requires
            self.inv(),
        ensures
            0 <= i < self.unsync_msgs.delivered.len() ==> i < self.unsync_msgs.accepted.len()
                && self.unsync_msgs.delivered[i] == self.unsync_msgs.accepted[i],
            self.sync_msgs is Some && 0 <= i < self.sync_msgs->0.delivered.len() ==> i
                < self.sync_msgs->0.accepted.len() && self.sync_msgs->0.delivered[i]
                == self.sync_msgs->0.accepted[i],
    {
    }
}

/// A supervisor of one actor, whose envelopes are of type `T`.
pub struct Supervisor<T> {
    ctx: Context<T>,
    #[allow(dead_code)]
    addr: LocalAddress,
    unsync_msgs: Mailbox<LocalMail<T>>,
    sync_msgs: Option<Mailbox<T>>,
    round: Round,
    not_ready: bool,
    done: bool,
    restarts: Ghost<nat>,
}

impl<T> View for Supervisor<T> {
    type V = SupervisorView<T>;

    closed spec fn view(&self) -> SupervisorView<T> {
        SupervisorView {
            ctx: self.ctx@,
            unsync_msgs: self.unsync_msgs@,
            sync_msgs: match self.sync_msgs {
                Some(s) => Some(s@),
                None => None,
            },
            round: self.round,
            not_ready: self.not_ready,
            done: self.done,
            restarts: self.restarts@,
        }
    }
}

impl<T> Supervisor<T> {
    /// Starts a supervised actor for producers on the actor's own thread.
    /// The address that comes back stays valid however often the actor is
    /// restarted.
    pub fn start() -> (r: (Self, LocalAddress))
        ensures
            r.0@ == SupervisorView::<T>::started(),
            r.0@.inv(),
    {
        let mut ctx = Context::new();
        let addr = ctx.address();
        let mut rx = Mailbox::new(0);
        rx.sender();
        let supervisor = Supervisor {
            ctx,
            addr,
            unsync_msgs: rx,
            sync_msgs: None,
            round: Round::Start,
            not_ready: true,
            done: false,
            restarts: Ghost(0),
        };
        (supervisor, LocalAddress::registered())
    }

    /// Starts a supervised actor for producers on other threads.
    pub fn start_in() -> (r: (Self, Address))
        ensures
            r.0@ == SupervisorView::<T>::started_in(),
            r.0@.inv(),
    {
        let mut rx = Mailbox::new(0);
        rx.sender();
        let mut ctx = Context::new();
        let addr = ctx.address();
        let supervisor = Supervisor {
            ctx,
            addr,
            unsync_msgs: Mailbox::new(0),
            sync_msgs: Some(rx),
            round: Round::Start,
            not_ready: true,
            done: false,
            restarts: Ghost(0),
        };
        (supervisor, Address::registered())
    }

    /// Whether a producer is left on either mailbox of the supervisor.
    pub fn connected(&self) -> (r: bool)
        ensures
            r == self@.connected(),
    {
        self.unsync_msgs.has_senders() || match &self.sync_msgs {
            Some(s) => s.has_senders(),
            None => false,
        }
    }

    /// Whether the supervisor has ended.
    pub fn done(&self) -> (r: bool)
        ensures
            r == self@.done,
    {
        self.done
    }

    /// Hands out an address for producers on any thread. The cross-thread
    /// mailbox is made, without a bound, when the first such address is asked
    /// for.
    pub fn remote_address(&mut self) -> (addr: Address)
        requires
            old(self)@.sync_msgs matches Some(s) ==> s.senders < usize::MAX,
        ensures
            final(self)@ == old(self)@.remote_address(),
            old(self)@.inv() ==> final(self)@.inv(),
    {
        match self.sync_msgs.take() {
            Some(mut s) => {
                s.sender();
                self.sync_msgs = Some(s);
            },
            None => {
                let mut s = Mailbox::new(0);
                s.sender();
                self.sync_msgs = Some(s);
            },
        }
        Address::registered()
    }

    /// The context of the supervised actor.
    pub fn context(&self) -> (ctx: &Context<T>)
        ensures
            ctx@ == self@.ctx,
    {
        &self.ctx
    }

    /// The context of the supervised actor, for the actor's hooks and
    /// handlers to use.
    pub fn context_mut(&mut self) -> (ctx: &mut Context<T>)
        ensures
            ctx@ == old(self)@.ctx,
            final(self)@ == (SupervisorView { ctx: final(ctx)@, ..old(self)@ }),
    {
        &mut self.ctx
    }

    /// The local mailbox, for those who hold a local address.
    pub fn local_mut(&mut self) -> (mailbox: &mut Mailbox<LocalMail<T>>)
        ensures
            mailbox@ == old(self)@.unsync_msgs,
            final(self)@ == (SupervisorView { unsync_msgs: final(mailbox)@, ..old(self)@ }),
    {
        &mut self.unsync_msgs
    }

    /// The cross-thread mailbox, for those who hold a cross-thread address;
    /// `None` while there is no such mailbox.
    pub fn sync_mut(&mut self) -> (mailbox: Option<&mut Mailbox<T>>)
        ensures
            match old(self)@.sync_msgs {
                None => mailbox is None && final(self)@ == old(self)@,
                Some(s) => mailbox is Some && mailbox.unwrap()@ == s && final(self)@ == (
                SupervisorView { sync_msgs: Some(final(mailbox.unwrap())@), ..old(self)@ }),
            },
    {
        self.sync_msgs.as_mut()
    }

    /// Takes back an address for producers on any thread.
    pub fn release_remote(&mut self, addr: Address)
        ensures
            final(self)@ == old(self)@.release_remote(),
            old(self)@.inv() ==> final(self)@.inv(),
    {
        match self.sync_msgs.take() {
            Some(mut s) => {
                s.release();
                self.sync_msgs = Some(s);
            },
            None => {},
        }
    }

    /// Takes note of what became of an address that was sent in answer to a
    /// request for it: it is in use if it arrived, and is taken back if it
    /// came back. Tells whether it arrived.
    pub fn settle_upgrade(&mut self, outcome: Result<(), Address>) -> (delivered: bool)
        ensures
            delivered == (outcome is Ok),
            final(self)@ == if delivered {
                old(self)@
            } else {
                old(self)@.release_remote()
            },
            old(self)@.inv() ==> final(self)@.inv(),
    {
        match outcome {
            Ok(()) => true,
            Err(addr) => {
                self.release_remote(addr);
                false
            },
        }
    }

    /// Answers a request for a cross-thread address: hands out such an
    /// address and sends it on the channel of the request. If nobody waits
    /// at the other end, the address is taken back. Tells whether the
    /// address arrived.
    pub fn upgrade(&mut self, reply: futures::unsync::oneshot::Sender<Address>) -> (delivered: bool)
        requires
            old(self)@.sync_msgs matches Some(s) ==> s.senders < usize::MAX,
        ensures
            final(self)@ == old(self)@.upgrade(delivered),
            old(self)@.inv() ==> final(self)@.inv(),
    {
        let addr = self.remote_address();
        let outcome = send_address(reply, addr);
        self.settle_upgrade(outcome)
    }

    fn restart(&mut self)
        ensures
            final(self)@ == old(self)@.restart(),
    {
        let mut ctx = Context::with_capacity(self.ctx.capacity());
        self.addr = ctx.address();
        self.ctx = ctx;
        self.round = Round::Start;
        proof {
            self.restarts@ = self.restarts@ + 1;
        }
    }

    fn finish(&mut self)
        ensures
            final(self)@ == old(self)@.finish(),
    {
        self.unsync_msgs.close();
        match self.sync_msgs.take() {
            Some(mut s) => {
                s.close();
                self.sync_msgs = Some(s);
            },
            None => {},
        }
        self.round = Round::Start;
        self.done = true;
    }

    fn rest(&mut self) -> (step: Supervision<T>)
        ensures
            (final(self)@, step) == old(self)@.rest(),
    {
        self.round = Round::Start;
        if self.ctx.busy() {
            Supervision::Yield
        } else {
            Supervision::NotReady
        }
    }

    fn from_sync(&mut self) -> (step: Supervision<T>)
        requires
            !old(self)@.done,
        ensures
            (final(self)@, step) == old(self)@.from_sync(),
        decreases old(self)@.budget(Round::Sync),
    {
        if self.sync_msgs.is_some() {
            if !self.ctx.alive() {
                if self.not_ready {
                    return self.rest();
                }
                self.round = Round::Start;
                return self.from_start();
            }
            if self.ctx.waiting() {
                return self.rest();
            }
            let taken = match self.sync_msgs.take() {
                Some(mut s) => {
                    let envelope = s.recv();
                    self.sync_msgs = Some(s);
                    envelope
                },
                None => None,
            };
            if let Some(envelope) = taken {
                self.not_ready = false;
                return Supervision::Handle(envelope);
            }
        }
        if self.not_ready {
            return self.rest();
        }
        self.round = Round::Start;
        self.from_start()
    }

    fn from_local(&mut self) -> (step: Supervision<T>)
        requires
            !old(self)@.done,
        ensures
            (final(self)@, step) == old(self)@.from_local(),
        decreases old(self)@.budget(Round::Local),
    {
        if !self.ctx.alive() {
            if self.not_ready {
                return self.rest();
            }
            self.round = Round::Start;
            return self.from_start();
        }
        if self.ctx.waiting() {
            return self.rest();
        }
        match self.unsync_msgs.recv() {
            Some(LocalMail::Upgrade(reply)) => {
                self.not_ready = false;
                Supervision::Upgrade(reply)
            },
            Some(LocalMail::Envelope(envelope)) => {
                self.not_ready = false;
                Supervision::Handle(envelope)
            },
            None => {
                self.round = Round::Sync;
                self.from_sync()
            },
        }
    }

    fn from_context(&mut self) -> (step: Supervision<T>)
        requires
            !old(self)@.done,
        ensures
            (final(self)@, step) == old(self)@.from_context(),
        decreases old(self)@.budget(Round::Context),
    {
        let connected = self.connected();
        let step = self.ctx.poll();
        self.round = Round::Context;
        match step {
            Step::Yield | Step::NotReady => {
                if self.ctx.waiting() {
                    return self.rest();
                }
                self.round = Round::Local;
                self.not_ready = true;
                self.from_local()
            },
            Step::Ready | Step::Failed => {
                if !connected {
                    self.finish();
                    return Supervision::Ready;
                }
                self.restart();
                Supervision::Restarting
            },
            other => Supervision::Context(other),
        }
    }

    fn from_start(&mut self) -> (step: Supervision<T>)
        requires
            !old(self)@.done,
        ensures
            (final(self)@, step) == old(self)@.from_start(),
        decreases old(self)@.budget(Round::Start),
    {
        if !self.connected() {
            self.ctx.stop();
        }
        self.round = Round::Context;
        self.from_context()
    }

    /// Takes one step and says what the caller is to do.
    ///
    /// The caller performs what the step asks for and then calls `poll`
    /// again, until the step is one that ends the round (`Yield`, `NotReady`)
    /// or tells that the supervisor is over (`Ready`).
    pub fn poll(&mut self) -> (step: Supervision<T>)
        ensures
            (final(self)@, step) == old(self)@.poll(),
            old(self)@.inv() ==> final(self)@.inv(),
    {
        proof {
            if self@.inv() {
                self@.lemma_poll_keeps_inv();
            }
        }
        if self.done {
            return Supervision::Ready;
        }
        match self.round {
            Round::Start => self.from_start(),
            Round::Context => self.from_context(),
            Round::Local => self.from_local(),
            Round::Sync => self.from_sync(),
        }
    }
}

/// Sends a cross-thread address on a one-shot channel, with
/// `futures::unsync::oneshot::Sender::send`. That function stores the value
/// for the receiver and gives `Ok`, or gives the value back in `Err` when the
/// receiver is gone. Which of the two happens is not claimed here.
#[verifier::external_body]
fn send_address(reply: futures::unsync::oneshot::Sender<Address>, addr: Address) -> (r: Result<
    (),
    Address,
>)
    ensures
        r matches Err(back) ==> back == addr,
{
    reply.send(addr)
}

} // verus!
