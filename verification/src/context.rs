//! The execution context: the driver of one actor.
//!
//! A context owns the receiving ends of its actor's mailboxes, the set of
//! sub-futures that the actor has spawned, and the actor's lifecycle state.
//! It decides what happens next; the caller performs it. Each call of
//! [`Context::poll`] yields one [`Step`]: a hook to call, a sub-future to
//! poll, an envelope to dispatch, or the end of the poll cycle. Between two
//! calls the actor, its handlers and its hooks are free to use the context:
//! to spawn, to stop, to hand out addresses.

use crate::actor::{ActorState, SpawnHandle};
use crate::address::{Address, LocalAddress};
use crate::mailbox::{Mailbox, MailboxOp, MailboxView, DEFAULT_CAPACITY};
use vstd::prelude::*;

verus! {

/// How many envelopes a context takes from one mailbox in one poll cycle.
pub const DRAIN_LIMIT: usize = 16;

/// How far a context has come in its poll cycle.
#[derive(Debug, Clone, Copy, PartialEq, Eq, Structural)]
pub enum Phase {
    /// Between two cycles.
    Idle,
    /// Polling the sub-futures that hold up the mailboxes.
    Wait,
    /// Polling the other sub-futures.
    Items,
    /// Draining the local mailbox.
    Local,
    /// Draining the cross-thread mailbox.
    Sync,
    /// The `stopping` hook has been asked; its answer is awaited.
    Verdict,
}

/// One thing that a context asks of its caller.
#[derive(Debug)]
pub enum Step<T> {
    /// Call the actor's `started` hook.
    Started,
    /// Poll the sub-future with this handle; if it has completed, or has
    /// failed, say so with [`Context::completed`].
    Poll(SpawnHandle),
    /// Hand this envelope to the actor.
    Handle(T),
    /// Call the actor's `stopping` hook; if it answers that the actor is to
    /// go on, say so with [`Context::veto`].
    Stopping,
    /// Call the actor's `stopped` hook. The context has ended.
    Stopped,
    /// The cycle is over, but work is left: poll again soon.
    Yield,
    /// The cycle is over: poll again when something wakes the context.
    NotReady,
    /// The context has ended before; nothing is left to do.
    Ready,
    /// The context was aborted; it has ended without its `stopped` hook.
    Failed,
}

/// One entry in the record of what a context asked for.
pub enum Lifecycle {
    /// The `started` hook was asked for.
    Started,
    /// An envelope was handed out for dispatch.
    Handled,
    /// The `stopping` hook was asked for.
    Stopping,
    /// The `stopping` hook answered that the actor is to go on.
    Vetoed,
    /// The actor was terminated without its `stopping` hook.
    Terminated,
    /// The `stopped` hook was asked for.
    Stopped,
}

/// One thing that can happen to a context.
pub enum ContextOp<T> {
    /// The context takes a step.
    Poll,
    /// A sub-future is spawned.
    Spawn,
    /// A sub-future is spawned that holds up the mailboxes.
    Wait,
    /// The sub-future of this handle is cancelled, or has completed.
    Remove(SpawnHandle),
    /// A stop is asked for.
    Stop,
    /// The actor is terminated.
    Terminate,
    /// The context is aborted.
    Abort,
    /// The `stopping` hook answers that the actor is to go on.
    Veto,
    /// A local address is handed out.
    Address,
    /// A cross-thread address is handed out.
    AddressSync,
    /// A local address is taken back.
    Release,
    /// A cross-thread address is taken back.
    ReleaseSync,
    /// A producer does something to the local mailbox.
    Local(MailboxOp<T>),
    /// A producer does something to the cross-thread mailbox, if there is
    /// one.
    Sync(MailboxOp<T>),
}

/// The place of the first `h` in `s` at or after `from`; the length of `s`
/// if there is none.
pub open spec fn position_from(s: Seq<SpawnHandle>, h: SpawnHandle, from: int) -> int
    decreases s.len() - from,
{
    if from < 0 || from >= s.len() {
        s.len() as int
    } else if s[from] == h {
        from
    } else {
        position_from(s, h, from + 1)
    }
}

/// The place of the first `h` in `s`; the length of `s` if there is none.
pub open spec fn position(s: Seq<SpawnHandle>, h: SpawnHandle) -> int {
    position_from(s, h, 0)
}

/// What the record of a context looks like, whatever happened to it: the
/// `started` hook comes first or not at all; no envelope is handed out
/// before it; the `stopped` hook comes last, and directly after a `stopping`
/// hook that was not answered with a veto, or directly after a termination.
pub open spec fn ordered(history: Seq<Lifecycle>) -> bool {
    &&& forall|i: int| 0 <= i < history.len() && (#[trigger] history[i]) is Started ==> i == 0
    &&& forall|i: int|
        0 <= i < history.len() && (#[trigger] history[i]) is Handled ==> history[0] is Started
    &&& forall|i: int|
        0 <= i < history.len() && (#[trigger] history[i]) is Stopped ==> i == history.len() - 1
    &&& history.len() > 0 && history.last() is Stopped ==> history.len() > 1 && (
    history[history.len() - 2] is Stopping || history[history.len() - 2] is Terminated)
}

/// Whether the record holds no entry of the kind that only the end of a
/// context leaves.
pub open spec fn unended(history: Seq<Lifecycle>) -> bool {
    forall|i: int|
        0 <= i < history.len() ==> !((#[trigger] history[i]) is Stopped) && !(history[i] is Terminated)
}

/// Whether the record holds no `stopped` hook.
pub open spec fn unstopped(history: Seq<Lifecycle>) -> bool {
    forall|i: int| 0 <= i < history.len() ==> !((#[trigger] history[i]) is Stopped)
}

/// A handle that has a place in a list stands at that place, and not before
/// it; a handle that has none is not in the list.
pub proof fn lemma_position(s: Seq<SpawnHandle>, h: SpawnHandle, from: int)
    requires
        0 <= from <= s.len(),
    ensures
        from <= position_from(s, h, from) <= s.len(),
        position_from(s, h, from) < s.len() ==> s[position_from(s, h, from)] == h,
        forall|k: int| from <= k < position_from(s, h, from) ==> s[k] != h,
    decreases s.len() - from,
{
    if from < s.len() && s[from] != h {
        lemma_position(s, h, from + 1);
    }
}

/// One more entry keeps a record in order, if the entry may stand where it
/// is put.
pub proof fn lemma_push_ordered(history: Seq<Lifecycle>, entry: Lifecycle)
    requires
        ordered(history),
        unstopped(history),
        entry is Started ==> history.len() == 0,
        entry is Handled ==> history.len() > 0 && history[0] is Started,
        entry is Stopped ==> history.len() > 0 && (history.last() is Stopping
            || history.last() is Terminated),
    ensures
        ordered(history.push(entry)),
{
    let next = history.push(entry);
    assert forall|i: int| 0 <= i < next.len() implies ((#[trigger] next[i]) is Started ==> i == 0)
        && (next[i] is Handled ==> next[0] is Started) && (next[i] is Stopped ==> i == next.len()
        - 1) by {
        if i < history.len() {
            assert(next[i] == history[i]);
        }
        if 0 < history.len() {
            assert(next[0] == history[0]);
        }
    }
    if history.len() > 0 {
        assert(next[next.len() - 2] == history.last());
    }
}

/// What a context is, mathematically.
pub struct ContextView<T> {
    /// Where the actor stands in its lifecycle.
    pub state: ActorState,
    /// Whether a stop has been asked for and not yet been acted on.
    pub stop_requested: bool,
    /// The sub-futures that hold up the mailboxes until they complete.
    pub wait: Seq<SpawnHandle>,
    /// The other sub-futures.
    pub items: Seq<SpawnHandle>,
    /// The number of the next handle to give out.
    pub next_handle: nat,
    /// The local mailbox.
    pub local: MailboxView<T>,
    /// The cross-thread mailbox, once somebody has asked for its address.
    pub sync: Option<MailboxView<T>>,
    /// How far the current poll cycle has come.
    pub phase: Phase,
    /// How many sub-futures of the current phase have been polled.
    pub cursor: nat,
    /// How many envelopes of the current phase have been handed out.
    pub drained: nat,
    /// Whether a sub-future was spawned too late to be polled in this cycle.
    pub unpolled: bool,
    /// Whether the context has ended and has said so.
    pub finished: bool,
    /// Whether the context was aborted.
    pub poisoned: bool,
    /// What the context has asked for so far.
    pub history: Seq<Lifecycle>,
}

impl<T> ContextView<T> {
    /// A new context: not started, nothing spawned, no address handed out.
    pub open spec fn fresh(capacity: nat) -> Self {
        ContextView {
            state: ActorState::Started,
            stop_requested: false,
            wait: Seq::empty(),
            items: Seq::empty(),
            next_handle: 0,
            local: MailboxView::fresh(capacity),
            sync: None,
            phase: Phase::Idle,
            cursor: 0,
            drained: 0,
            unpolled: false,
            finished: false,
            poisoned: false,
            history: Seq::empty(),
        }
    }

    /// Whether a sub-future holds up the mailboxes.
    pub open spec fn waiting(self) -> bool {
        self.wait.len() > 0
    }

    /// Whether any sub-future is left.
    pub open spec fn has_work(self) -> bool {
        self.wait.len() > 0 || self.items.len() > 0
    }

    /// Whether any producer is left on either mailbox.
    pub open spec fn connected(self) -> bool {
        self.local.senders > 0 || (self.sync matches Some(s) && s.senders > 0)
    }

    /// Whether every mailbox has lost its receiver.
    pub open spec fn all_closed(self) -> bool {
        !self.local.open && (self.sync matches Some(s) ==> !s.open)
    }

    /// Whether mail waits in either mailbox.
    pub open spec fn has_mail(self) -> bool {
        self.local.queue.len() > 0 || (self.sync matches Some(s) && s.queue.len() > 0)
    }

    /// When a running actor is asked to stop: a stop was requested, every
    /// mailbox is closed, or neither a sub-future nor a producer is left.
    pub open spec fn should_stop(self) -> bool {
        self.stop_requested || self.all_closed() || (!self.has_work() && !self.connected())
    }

    /// Whether envelopes are handed out: the actor runs, no sub-future holds
    /// up the mailboxes, and no stop is under way.
    pub open spec fn dispatching(self) -> bool {
        self.state is Running && !self.waiting() && !self.stop_requested
    }

    /// Whether the actor is neither stopping nor about to.
    pub open spec fn alive(self) -> bool {
        self.state.spec_alive() && !self.stop_requested
    }

    /// Whether work is left at the end of a cycle that nothing will wake the
    /// context for: mail that may be handed out, or a sub-future that has
    /// never been polled.
    pub open spec fn busy(self) -> bool {
        self.unpolled || (self.dispatching() && self.has_mail())
    }

    /// Whether the handle names a sub-future of this context.
    pub open spec fn holds(self, h: SpawnHandle) -> bool {
        position(self.wait, h) < self.wait.len() || position(self.items, h) < self.items.len()
    }

    /// Whether a sub-future that is spawned now is past its turn in the
    /// current cycle.
    pub open spec fn late(self, exclusive: bool) -> bool {
        self.phase is Local || self.phase is Sync || self.phase is Verdict || (exclusive
            && self.phase is Items)
    }

    /// Spawning: a new handle at the end of the sub-futures.
    pub open spec fn spawn(self) -> (Self, SpawnHandle) {
        let h = SpawnHandle::of(self.next_handle);
        (
            ContextView {
                items: self.items.push(h),
                next_handle: self.next_handle + 1,
                unpolled: self.unpolled || self.late(false),
                ..self
            },
            h,
        )
    }

    /// Spawning a sub-future that holds up the mailboxes until it completes.
    pub open spec fn wait(self) -> (Self, SpawnHandle) {
        let h = SpawnHandle::of(self.next_handle);
        (
            ContextView {
                wait: self.wait.push(h),
                next_handle: self.next_handle + 1,
                unpolled: self.unpolled || self.late(true),
                ..self
            },
            h,
        )
    }

    /// The context without the sub-future of the given handle. The cycle
    /// goes on where it was.
    pub open spec fn without(self, h: SpawnHandle) -> Self {
        let w = position(self.wait, h);
        let i = position(self.items, h);
        if w < self.wait.len() {
            ContextView {
                wait: self.wait.remove(w),
                cursor: if self.phase is Wait && w < self.cursor {
                    (self.cursor - 1) as nat
                } else {
                    self.cursor
                },
                ..self
            }
        } else if i < self.items.len() {
            ContextView {
                items: self.items.remove(i),
                cursor: if self.phase is Items && i < self.cursor {
                    (self.cursor - 1) as nat
                } else {
                    self.cursor
                },
                ..self
            }
        } else {
            self
        }
    }

    /// Asking for a stop. A context that has stopped ignores it.
    pub open spec fn stop(self) -> Self {
        if self.state is Stopped {
            self
        } else {
            ContextView { stop_requested: true, ..self }
        }
    }

    /// The context at its end: stopped, its mailboxes closed, its sub-futures
    /// dropped.
    pub open spec fn shut(self) -> Self {
        ContextView {
            state: ActorState::Stopped,
            stop_requested: false,
            wait: Seq::empty(),
            items: Seq::empty(),
            local: self.local.close(),
            sync: match self.sync {
                Some(s) => Some(s.close()),
                None => None,
            },
            phase: Phase::Idle,
            unpolled: false,
            ..self
        }
    }

    /// Terminating: the actor stops at once, without its `stopping` hook.
    /// Its `stopped` hook is still to come.
    pub open spec fn terminate(self) -> Self {
        if self.state is Stopped {
            self
        } else {
            ContextView { history: self.history.push(Lifecycle::Terminated), ..self.shut() }
        }
    }

    /// Aborting: the context ends at once and without any hook.
    pub open spec fn abort(self) -> Self {
        if self.finished {
            self
        } else {
            ContextView { finished: true, poisoned: true, ..self.shut() }
        }
    }

    /// The veto of the `stopping` hook: the actor stays, the request to stop
    /// is forgotten, and the context begins a new cycle.
    pub open spec fn veto(self) -> Self {
        if self.phase is Verdict {
            ContextView {
                phase: Phase::Idle,
                stop_requested: false,
                history: self.history.push(Lifecycle::Vetoed),
                ..self
            }
        } else {
            self
        }
    }

    /// Handing out a local address: one more producer on the local mailbox.
    pub open spec fn address(self) -> Self {
        ContextView { local: self.local.sender(), ..self }
    }

    /// Handing out a cross-thread address: one more producer on the
    /// cross-thread mailbox, which is made on first use.
    pub open spec fn address_sync(self) -> Self {
        ContextView {
            sync: Some(
                match self.sync {
                    Some(s) => s.sender(),
                    None => MailboxView::fresh(self.local.capacity).sender(),
                },
            ),
            ..self
        }
    }

    /// Taking back a local address.
    pub open spec fn release(self) -> Self {
        ContextView { local: self.local.release(), ..self }
    }

    /// Taking back a cross-thread address.
    pub open spec fn release_sync(self) -> Self {
        ContextView {
            sync: match self.sync {
                Some(s) => Some(s.release()),
                None => None,
            },
            ..self
        }
    }

    /// The end of a cycle. A running actor that should stop is asked whether
    /// it may; so is an actor that has vetoed before and is told to stop
    /// again. An actor that has vetoed and has something to live for runs
    /// again. Otherwise the cycle is over.
    pub open spec fn check(self) -> (Self, Step<T>) {
        if (self.state is Running && self.should_stop()) || (self.state is Stopping
            && self.stop_requested) {
            (
                ContextView {
                    state: ActorState::Stopping,
                    stop_requested: false,
                    phase: Phase::Verdict,
                    history: self.history.push(Lifecycle::Stopping),
                    ..self
                },
                Step::Stopping,
            )
        } else {
            let next = ContextView {
                state: if self.state is Stopping && (self.has_work() || self.connected()) {
                    ActorState::Running
                } else {
                    self.state
                },
                phase: Phase::Idle,
                ..self
            };
            (
                next,
                if next.busy() {
                    Step::Yield
                } else {
                    Step::NotReady
                },
            )
        }
    }

    /// The cycle from the cross-thread mailbox on.
    pub open spec fn from_sync(self) -> (Self, Step<T>) {
        if self.dispatching() && self.drained < DRAIN_LIMIT && self.sync is Some
            && self.sync->0.queue.len() > 0 {
            (
                ContextView {
                    sync: Some(self.sync->0.recv().0),
                    drained: self.drained + 1,
                    history: self.history.push(Lifecycle::Handled),
                    ..self
                },
                Step::Handle(self.sync->0.queue[0]),
            )
        } else {
            self.check()
        }
    }

    /// The cycle from the local mailbox on.
    pub open spec fn from_local(self) -> (Self, Step<T>) {
        if self.dispatching() && self.drained < DRAIN_LIMIT && self.local.queue.len() > 0 {
            (
                ContextView {
                    local: self.local.recv().0,
                    drained: self.drained + 1,
                    history: self.history.push(Lifecycle::Handled),
                    ..self
                },
                Step::Handle(self.local.queue[0]),
            )
        } else {
            ContextView { phase: Phase::Sync, drained: 0, ..self }.from_sync()
        }
    }

    /// The cycle from the ordinary sub-futures on.
    pub open spec fn from_items(self) -> (Self, Step<T>) {
        if self.cursor < self.items.len() {
            (ContextView { cursor: self.cursor + 1, ..self }, Step::Poll(self.items[self.cursor as int]))
        } else {
            ContextView { phase: Phase::Local, drained: 0, ..self }.from_local()
        }
    }

    /// The cycle from its beginning: the sub-futures that hold up the
    /// mailboxes come first.
    pub open spec fn from_wait(self) -> (Self, Step<T>) {
        if self.cursor < self.wait.len() {
            (ContextView { cursor: self.cursor + 1, ..self }, Step::Poll(self.wait[self.cursor as int]))
        } else {
            ContextView { phase: Phase::Items, cursor: 0, ..self }.from_items()
        }
    }

    /// One step of the context.
    ///
    /// A context that has ended says so. One whose `stopping` hook was asked
    /// and did not object ends now. A new one starts. Any other goes on with
    /// its cycle where it left it: first every sub-future is polled once,
    /// then each mailbox gives up to [`DRAIN_LIMIT`] envelopes while the actor
    /// runs and nothing holds up the mail, and at last the context looks
    /// whether the actor should stop.
    pub open spec fn poll(self) -> (Self, Step<T>) {
        if self.state is Stopped {
            if self.finished {
                (
                    self,
                    if self.poisoned {
                        Step::Failed
                    } else {
                        Step::Ready
                    },
                )
            } else {
                (
                    ContextView {
                        finished: true,
                        history: self.history.push(Lifecycle::Stopped),
                        ..self
                    },
                    Step::Stopped,
                )
            }
        } else if self.phase is Verdict {
            (
                ContextView {
                    finished: true,
                    history: self.history.push(Lifecycle::Stopped),
                    ..self.shut()
                },
                Step::Stopped,
            )
        } else if self.state is Started {
            (
                ContextView {
                    state: ActorState::Running,
                    phase: Phase::Wait,
                    cursor: 0,
                    unpolled: false,
                    history: self.history.push(Lifecycle::Started),
                    ..self
                },
                Step::Started,
            )
        } else {
            match self.phase {
                Phase::Idle => ContextView {
                    phase: Phase::Wait,
                    cursor: 0,
                    unpolled: false,
                    ..self
                }.from_wait(),
                Phase::Wait => self.from_wait(),
                Phase::Items => self.from_items(),
                Phase::Local => self.from_local(),
                Phase::Sync => self.from_sync(),
                Phase::Verdict => self.check(),
            }
        }
    }

    /// Every handle in use is below the next handle to give out, and no
    /// handle is in use twice.
    pub open spec fn handles_distinct(self) -> bool {
        &&& forall|i: int|
            0 <= i < self.wait.len() ==> (#[trigger] self.wait[i]).spec_id() < self.next_handle
        &&& forall|i: int|
            0 <= i < self.items.len() ==> (#[trigger] self.items[i]).spec_id() < self.next_handle
        &&& forall|i: int, j: int|
            0 <= i < j < self.wait.len() ==> #[trigger] self.wait[i] != #[trigger] self.wait[j]
        &&& forall|i: int, j: int|
            0 <= i < j < self.items.len() ==> #[trigger] self.items[i] != #[trigger] self.items[j]
        &&& forall|i: int, j: int|
            0 <= i < self.wait.len() && 0 <= j < self.items.len() ==> #[trigger] self.wait[i]
                != #[trigger] self.items[j]
    }

    /// How the record of a context goes with its state.
    pub open spec fn recorded(self) -> bool {
        &&& self.state is Started ==> self.history.len() == 0
        &&& self.state is Running || self.state is Stopping ==> self.history.len() > 0
            && self.history[0] is Started
        &&& !(self.state is Stopped) ==> unended(self.history) && !self.finished
        &&& self.phase is Verdict ==> self.state is Stopping && self.history.len() > 0
            && self.history.last() is Stopping
        &&& self.state is Stopped && !self.finished ==> self.history.len() > 0
            && self.history.last() is Terminated && unstopped(self.history)
        &&& self.state is Stopped ==> self.phase is Idle
        &&& self.poisoned ==> self.finished
    }

    /// What holds of every context.
    pub open spec fn inv(self) -> bool {
        &&& self.next_handle <= usize::MAX
        &&& self.handles_distinct()
        &&& self.local.inv()
        &&& self.sync matches Some(s) ==> s.inv()
        &&& self.recorded()
        &&& ordered(self.history)
    }

    /// Spawning keeps what holds of every context, and the new handle is one
    /// that no sub-future had before.
    pub proof fn lemma_spawn_keeps_inv(self, exclusive: bool)
        requires
            self.inv(),
            self.next_handle < usize::MAX,
        ensures
            !exclusive ==> self.spawn().0.inv() && !self.holds(self.spawn().1)
                && self.spawn().0.holds(self.spawn().1),
            exclusive ==> self.wait().0.inv() && !self.holds(self.wait().1) && self.wait().0.holds(
                self.wait().1,
            ),
    {
        let h = SpawnHandle::of(self.next_handle);
        SpawnHandle::lemma_of_id(self.next_handle);
        lemma_position(self.wait, h, 0);
        lemma_position(self.items, h, 0);
        if exclusive {
            let next = self.wait().0;
            lemma_position(next.wait, h, 0);
            lemma_position(next.items, h, 0);
            assert(next.wait[self.wait.len() as int] == h);
            assert(next.handles_distinct());
        } else {
            let next = self.spawn().0;
            lemma_position(next.wait, h, 0);
            lemma_position(next.items, h, 0);
            assert(next.items[self.items.len() as int] == h);
            assert(next.handles_distinct());
        }
    }

    /// Taking a sub-future out keeps what holds of every context, and takes
    /// the handle out of use.
    pub proof fn lemma_without_keeps_inv(self, h: SpawnHandle)
        requires
            self.inv(),
        ensures
            self.without(h).inv(),
            !self.without(h).holds(h),
    {
        let next = self.without(h);
        let w = position(self.wait, h);
        let i = position(self.items, h);
        lemma_position(self.wait, h, 0);
        lemma_position(self.items, h, 0);
        lemma_position(next.wait, h, 0);
        lemma_position(next.items, h, 0);
        if w < self.wait.len() {
            assert forall|k: int| 0 <= k < next.wait.len() implies next.wait[k] == self.wait[if k
                < w {
                k
            } else {
                k + 1
            }] by {}
            assert(next.handles_distinct());
        } else if i < self.items.len() {
            assert forall|k: int| 0 <= k < next.items.len() implies next.items[k]
                == self.items[if k < i {
                k
            } else {
                k + 1
            }] by {}
            assert(next.handles_distinct());
        }
    }

    /// Shutting a context down keeps its mailboxes in order.
    pub proof fn lemma_shut(self)
        requires
            self.inv(),
        ensures
            self.shut().local.inv(),
            self.shut().sync matches Some(s) ==> s.inv(),
            self.shut().handles_distinct(),
    {
    }

    /// Terminating keeps what holds of every context.
    pub proof fn lemma_terminate_keeps_inv(self)
        requires
            self.inv(),
        ensures
            self.terminate().inv(),
    {
        if !(self.state is Stopped) {
            self.lemma_shut();
            lemma_push_ordered(self.history, Lifecycle::Terminated);
            let next = self.terminate();
            assert(next.history.last() is Terminated);
            assert forall|i: int| 0 <= i < next.history.len() implies !(
            (#[trigger] next.history[i]) is Stopped) by {
                if i < self.history.len() {
                    assert(next.history[i] == self.history[i]);
                }
            }
        }
    }

    /// Aborting keeps what holds of every context.
    pub proof fn lemma_abort_keeps_inv(self)
        requires
            self.inv(),
        ensures
            self.abort().inv(),
    {
        if !self.finished {
            self.lemma_shut();
        }
    }

    /// A veto keeps what holds of every context.
    pub proof fn lemma_veto_keeps_inv(self)
        requires
            self.inv(),
        ensures
            self.veto().inv(),
    {
        if self.phase is Verdict {
            lemma_push_ordered(self.history, Lifecycle::Vetoed);
            let next = self.veto();
            assert(next.history[0] == self.history[0]);
            assert forall|i: int| 0 <= i < next.history.len() implies !(
            (#[trigger] next.history[i]) is Stopped) && !(next.history[i] is Terminated) by {
                if i < self.history.len() {
                    assert(next.history[i] == self.history[i]);
                }
            }
        }
    }

    /// The end of a cycle keeps what holds of every context.
    pub proof fn lemma_check_keeps_inv(self)
        requires
            self.inv(),
            self.state is Running || self.state is Stopping,
            !(self.phase is Verdict),
        ensures
            self.check().0.inv(),
    {
        let next = self.check().0;
        if next.phase is Verdict {
            lemma_push_ordered(self.history, Lifecycle::Stopping);
            assert(next.history[0] == self.history[0]);
            assert(next.history.last() is Stopping);
            assert forall|i: int| 0 <= i < next.history.len() implies !(
            (#[trigger] next.history[i]) is Stopped) && !(next.history[i] is Terminated) by {
                if i < self.history.len() {
                    assert(next.history[i] == self.history[i]);
                }
            }
        }
    }

    /// Handing out an envelope keeps what holds of every context.
    pub proof fn lemma_handled_keeps_inv(self, next: Self)
        requires
            self.inv(),
            self.state is Running,
            !(self.phase is Verdict),
            next.history == self.history.push(Lifecycle::Handled),
            next.state == self.state,
            next.phase == self.phase,
            next.finished == self.finished,
            next.poisoned == self.poisoned,
            next.wait == self.wait,
            next.items == self.items,
            next.next_handle == self.next_handle,
            next.local.inv(),
            next.sync matches Some(s) ==> s.inv(),
        ensures
            next.inv(),
    {
        lemma_push_ordered(self.history, Lifecycle::Handled);
        assert(next.history[0] == self.history[0]);
        assert forall|i: int| 0 <= i < next.history.len() implies !(
        (#[trigger] next.history[i]) is Stopped) && !(next.history[i] is Terminated) by {
            if i < self.history.len() {
                assert(next.history[i] == self.history[i]);
            }
        }
    }

    /// The cycle from the cross-thread mailbox on keeps what holds of every
    /// context.
    pub proof fn lemma_from_sync_keeps_inv(self)
        requires
            self.inv(),
            self.state is Running || self.state is Stopping,
            !(self.phase is Verdict),
        ensures
            self.from_sync().0.inv(),
    {
        if self.dispatching() && self.drained < DRAIN_LIMIT && self.sync is Some
            && self.sync->0.queue.len() > 0 {
            self.sync->0.lemma_apply_keeps_inv(MailboxOp::Recv);
            self.lemma_handled_keeps_inv(self.from_sync().0);
        } else {
            self.lemma_check_keeps_inv();
        }
    }

    /// The cycle from the local mailbox on keeps what holds of every context.
    pub proof fn lemma_from_local_keeps_inv(self)
        requires
            self.inv(),
            self.state is Running || self.state is Stopping,
            !(self.phase is Verdict),
        ensures
            self.from_local().0.inv(),
    {
        if self.dispatching() && self.drained < DRAIN_LIMIT && self.local.queue.len() > 0 {
            self.local.lemma_apply_keeps_inv(MailboxOp::Recv);
            self.lemma_handled_keeps_inv(self.from_local().0);
        } else {
            ContextView { phase: Phase::Sync, drained: 0, ..self }.lemma_from_sync_keeps_inv();
        }
    }

    /// The cycle from the ordinary sub-futures on keeps what holds of every
    /// context.
    pub proof fn lemma_from_items_keeps_inv(self)
        requires
            self.inv(),
            self.state is Running || self.state is Stopping,
            !(self.phase is Verdict),
        ensures
            self.from_items().0.inv(),
    {
        if self.cursor < self.items.len() {
        } else {
            ContextView { phase: Phase::Local, drained: 0, ..self }.lemma_from_local_keeps_inv();
        }
    }

    /// The cycle from its beginning keeps what holds of every context.
    pub proof fn lemma_from_wait_keeps_inv(self)
        requires
            self.inv(),
            self.state is Running || self.state is Stopping,
            !(self.phase is Verdict),
        ensures
            self.from_wait().0.inv(),
    {
        if self.cursor < self.wait.len() {
        } else {
            ContextView { phase: Phase::Items, cursor: 0, ..self }.lemma_from_items_keeps_inv();
        }
    }

    /// A step keeps what holds of every context.
    pub proof fn lemma_poll_keeps_inv(self)
        requires
            self.inv(),
        ensures
            self.poll().0.inv(),
    {
        let next = self.poll().0;
        if self.state is Stopped {
            if !self.finished {
                lemma_push_ordered(self.history, Lifecycle::Stopped);
            }
        } else if self.phase is Verdict {
            self.lemma_shut();
            lemma_push_ordered(self.history, Lifecycle::Stopped);
        } else if self.state is Started {
            lemma_push_ordered(self.history, Lifecycle::Started);
            assert(next.history[0] is Started);
            assert forall|i: int| 0 <= i < next.history.len() implies !(
            (#[trigger] next.history[i]) is Stopped) && !(next.history[i] is Terminated) by {}
        } else {
            match self.phase {
                Phase::Idle => {
                    ContextView {
                        phase: Phase::Wait,
                        cursor: 0,
                        unpolled: false,
                        ..self
                    }.lemma_from_wait_keeps_inv();
                },
                Phase::Wait => self.lemma_from_wait_keeps_inv(),
                Phase::Items => self.lemma_from_items_keeps_inv(),
                Phase::Local => self.lemma_from_local_keeps_inv(),
                Phase::Sync => self.lemma_from_sync_keeps_inv(),
                Phase::Verdict => {},
            }
        }
    }

    /// The context after something was done to its local mailbox.
    pub open spec fn on_local(self, op: MailboxOp<T>) -> Self {
        ContextView { local: self.local.apply(op), ..self }
    }

    /// The context after something was done to its cross-thread mailbox.
    pub open spec fn on_sync(self, op: MailboxOp<T>) -> Self {
        ContextView {
            sync: match self.sync {
                Some(s) => Some(s.apply(op)),
                None => None,
            },
            ..self
        }
    }

    /// Whether the context has room for what is to happen to it: a handle
    /// to give out, a producer to count.
    pub open spec fn admits(self, op: ContextOp<T>) -> bool {
        match op {
            ContextOp::Spawn | ContextOp::Wait => self.next_handle < usize::MAX,
            ContextOp::Address => self.local.senders < usize::MAX,
            ContextOp::AddressSync => self.sync matches Some(s) ==> s.senders < usize::MAX,
            ContextOp::Local(op) => op.by_producer() && (op is Sender ==> self.local.senders
                < usize::MAX),
            ContextOp::Sync(op) => op.by_producer() && (op is Sender ==> (
            self.sync matches Some(s) ==> s.senders < usize::MAX)),
            _ => true,
        }
    }

    /// The context after something has happened to it.
    pub open spec fn apply(self, op: ContextOp<T>) -> Self {
        match op {
            ContextOp::Poll => self.poll().0,
            ContextOp::Spawn => self.spawn().0,
            ContextOp::Wait => self.wait().0,
            ContextOp::Remove(h) => self.without(h),
            ContextOp::Stop => self.stop(),
            ContextOp::Terminate => self.terminate(),
            ContextOp::Abort => self.abort(),
            ContextOp::Veto => self.veto(),
            ContextOp::Address => self.address(),
            ContextOp::AddressSync => self.address_sync(),
            ContextOp::Release => self.release(),
            ContextOp::ReleaseSync => self.release_sync(),
            ContextOp::Local(op) => self.on_local(op),
            ContextOp::Sync(op) => self.on_sync(op),
        }
    }

    /// Whether a series of happenings can befall a context, one after the
    /// other.
    pub open spec fn admits_all(self, ops: Seq<ContextOp<T>>) -> bool
        decreases ops.len(),
    {
        ops.len() > 0 ==> self.admits_all(ops.drop_last()) && self.run(ops.drop_last()).admits(
            ops.last(),
        )
    }

    /// The context after a series of happenings.
    pub open spec fn run(self, ops: Seq<ContextOp<T>>) -> Self
        decreases ops.len(),
    {
        if ops.len() == 0 {
            self
        } else {
            self.run(ops.drop_last()).apply(ops.last())
        }
    }

    /// Nothing that happens to a context breaks what holds of every context.
    pub proof fn lemma_apply_keeps_inv(self, op: ContextOp<T>)
        requires
            self.inv(),
            self.admits(op),
        ensures
            self.apply(op).inv(),
    {
        match op {
            ContextOp::Poll => self.lemma_poll_keeps_inv(),
            ContextOp::Spawn => self.lemma_spawn_keeps_inv(false),
            ContextOp::Wait => self.lemma_spawn_keeps_inv(true),
            ContextOp::Remove(h) => self.lemma_without_keeps_inv(h),
            ContextOp::Stop => {},
            ContextOp::Terminate => self.lemma_terminate_keeps_inv(),
            ContextOp::Abort => self.lemma_abort_keeps_inv(),
            ContextOp::Veto => self.lemma_veto_keeps_inv(),
            ContextOp::Address => {},
            ContextOp::AddressSync => {
                let fresh = MailboxView::<T>::fresh(self.local.capacity);
                assert(fresh.accepted =~= fresh.delivered + fresh.queue);
            },
            ContextOp::Release => {},
            ContextOp::ReleaseSync => {},
            ContextOp::Local(op) => {
                self.local.lemma_apply_keeps_inv(op);
            },
            ContextOp::Sync(op) => {
                if self.sync is Some {
                    self.sync->0.lemma_apply_keeps_inv(op);
                }
            },
        }
    }

    /// Whatever happens to a new context, in whatever order, the context
    /// stays within what holds of every context.
    pub proof fn lemma_run_keeps_inv(capacity: nat, ops: Seq<ContextOp<T>>)
        requires
            Self::fresh(capacity).admits_all(ops),
        ensures
            Self::fresh(capacity).run(ops).inv(),
        decreases ops.len(),
    {
        if ops.len() == 0 {
            let fresh = MailboxView::<T>::fresh(capacity);
            assert(fresh.accepted =~= fresh.delivered + fresh.queue);
        } else {
            Self::lemma_run_keeps_inv(capacity, ops.drop_last());
            Self::fresh(capacity).run(ops.drop_last()).lemma_apply_keeps_inv(ops.last());
        }
    }

    /// Whether an actor can pass from one state to another: from created to
    /// running, from running to stopping, from stopping on to stopped or
    /// back to running, and from anywhere to stopped. An actor that has
    /// stopped stays so.
    pub open spec fn passes(from: ActorState, to: ActorState) -> bool {
        from == to || match from {
            ActorState::Started => to is Running || to is Stopped,
            ActorState::Running => to is Stopping || to is Stopped,
            ActorState::Stopping => to is Running || to is Stopped,
            ActorState::Stopped => false,
        }
    }

    /// The lifecycle runs one way: whatever happens to a context, the actor
    /// passes only along the lines of its lifecycle. It is started by a step
    /// and by nothing else, it begins to stop by a step and by nothing else,
    /// and once it has stopped it stays stopped.
    pub proof fn lemma_lifecycle(self, op: ContextOp<T>)
        requires
            self.inv(),
        ensures
            Self::passes(self.state, self.apply(op).state),
            !(op is Poll) ==> self.apply(op).state == self.state || self.apply(op).state is Stopped,
            self.state is Stopped ==> self.apply(op).state is Stopped,
    {
    }

    /// The hooks come in order, whatever happens to a context from its
    /// making on: the `started` hook is the first thing that the context asks
    /// for, before any envelope; the `stopped` hook is the last, and comes
    /// directly after the `stopping` hook, or directly after a termination.
    /// So a `stopping` hook that was answered with a veto is never followed
    /// by the `stopped` hook, unless the actor is asked again.
    pub proof fn lemma_hooks_in_order(capacity: nat, ops: Seq<ContextOp<T>>, i: int)
        requires
            Self::fresh(capacity).admits_all(ops),
            0 <= i < Self::fresh(capacity).run(ops).history.len(),
        ensures
            ({
                let history = Self::fresh(capacity).run(ops).history;
                &&& history[i] is Started ==> i == 0
                &&& history[i] is Handled ==> i > 0 && history[0] is Started
                &&& history[i] is Stopped ==> i == history.len() - 1 && i > 0 && (history[i
                    - 1] is Stopping || history[i - 1] is Terminated)
            }),
    {
        Self::lemma_run_keeps_inv(capacity, ops);
    }

    /// The `started` hook comes first: whenever a context has handed out an
    /// envelope, it has asked for the `started` hook before, as the first
    /// thing of all.
    pub proof fn lemma_started_before_handled(self, i: int)
        requires
            self.inv(),
            0 <= i < self.history.len(),
            self.history[i] is Handled,
        ensures
            i > 0,
            self.history[0] is Started,
    {
    }

    /// The `stopped` hook comes last and directly after the `stopping` hook,
    /// unless the actor was terminated: then it comes directly after the
    /// termination.
    pub proof fn lemma_stopping_before_stopped(self, i: int)
        requires
            self.inv(),
            0 <= i < self.history.len(),
            self.history[i] is Stopped,
        ensures
            i == self.history.len() - 1,
            i > 0,
            self.history[i - 1] is Stopping || self.history[i - 1] is Terminated,
    {
    }

    /// The `stopping` hook comes before the `stopped` hook: in the record of
    /// an actor that was not terminated, the `stopped` hook stands directly
    /// after a `stopping` hook.
    pub proof fn lemma_stopping_precedes_stopped(self, i: int)
        requires
            self.inv(),
            0 <= i < self.history.len(),
            self.history[i] is Stopped,
            forall|j: int| 0 <= j < self.history.len() ==> !(#[trigger] self.history[j] is Terminated),
        ensures
            i > 0,
            self.history[i - 1] is Stopping,
    {
    }

    /// A veto puts the `stopped` hook off: between a veto and a later
    /// `stopped` hook the actor was asked to stop again, or was terminated.
    pub proof fn lemma_veto_defers_stopped(self, i: int, j: int)
        requires
            self.inv(),
            0 <= i < j < self.history.len(),
            self.history[i] is Vetoed,
            self.history[j] is Stopped,
        ensures
            i < j - 1,
            self.history[j - 1] is Stopping || self.history[j - 1] is Terminated,
    {
    }

    /// An envelope is handed out only to an actor that runs: the step before
    /// cannot have left the actor unstarted, stopping or stopped.
    pub proof fn lemma_handle_only_running(self)
        requires
            self.poll().1 is Handle,
        ensures
            self.state is Running,
            self.poll().0.state is Running,
            !self.waiting(),
            !self.stop_requested,
    {
    }

    /// One at a time: a step hands out at most one envelope, and the
    /// envelope that it hands out is the oldest of its mailbox and has left
    /// the mailbox with that step, so that no envelope is handed out twice.
    pub proof fn lemma_one_at_a_time(self)
        requires
            self.poll().1 is Handle,
        ensures
            self.poll().0.history == self.history.push(Lifecycle::Handled),
            (self.local.recv().1 == Some(self.poll().1->Handle_0) && self.poll().0.local
                == self.local.recv().0 && self.poll().0.sync == self.sync) || (self.sync is Some
                && self.sync->0.recv().1 == Some(self.poll().1->Handle_0) && self.poll().0.sync
                == Some(self.sync->0.recv().0) && self.poll().0.local == self.local),
    {
    }

    /// While a sub-future holds up the mailboxes, no envelope is handed out.
    pub proof fn lemma_wait_holds_mail(self)
        requires
            self.waiting(),
        ensures
            !(self.poll().1 is Handle),
    {
    }

    /// An actor that nobody can write to any more, that has no mail and no
    /// sub-future left, is asked to stop by the very next step if it runs,
    /// and by the step after the next if it has not started yet.
    pub proof fn lemma_orphan_is_stopped(self)
        requires
            self.inv(),
            !self.connected(),
            !self.has_mail(),
            !self.has_work(),
            self.state is Running || self.state is Started,
        ensures
            self.state is Running ==> self.poll().1 is Stopping && self.poll().0.state is Stopping,
            self.state is Started ==> self.poll().1 is Started && self.poll().0.poll().1 is Stopping
                && self.poll().0.poll().0.state is Stopping,
    {
    }

    /// A context that has ended stays ended: every further step reports the
    /// end and changes nothing.
    pub proof fn lemma_finished_is_final(self)
        requires
            self.inv(),
            self.finished,
        ensures
            self.poll().0 == self,
            self.poll().1 is Ready || self.poll().1 is Failed,
    {
    }
}

/// The execution context of one actor, whose envelopes are of type `T`.
pub struct Context<T> {
    state: ActorState,
    stop_requested: bool,
    wait: Vec<SpawnHandle>,
    items: Vec<SpawnHandle>,
    next_handle: usize,
    local: Mailbox<T>,
    sync: Option<Mailbox<T>>,
    phase: Phase,
    cursor: usize,
    drained: usize,
    unpolled: bool,
    finished: bool,
    poisoned: bool,
    history: Ghost<Seq<Lifecycle>>,
}

impl<T> View for Context<T> {
    type V = ContextView<T>;

    closed spec fn view(&self) -> ContextView<T> {
        ContextView {
            state: self.state,
            stop_requested: self.stop_requested,
            wait: self.wait@,
            items: self.items@,
            next_handle: self.next_handle as nat,
            local: self.local@,
            sync: match self.sync {
                Some(s) => Some(s@),
                None => None,
            },
            phase: self.phase,
            cursor: self.cursor as nat,
            drained: self.drained as nat,
            unpolled: self.unpolled,
            finished: self.finished,
            poisoned: self.poisoned,
            history: self.history@,
        }
    }
}

impl<T> Context<T> {
    /// Makes the context of a new actor, with mailboxes of the default
    /// capacity.
    pub fn new() -> (ctx: Self)
        ensures
            ctx@ == ContextView::<T>::fresh(DEFAULT_CAPACITY as nat),
            ctx@.inv(),
    {
        Context::with_capacity(DEFAULT_CAPACITY)
    }

    /// Makes the context of a new actor, with mailboxes of the given
    /// capacity; 0 makes them unbounded.
    pub fn with_capacity(capacity: usize) -> (ctx: Self)
        ensures
            ctx@ == ContextView::<T>::fresh(capacity as nat),
            ctx@.inv(),
    {
        Context {
            state: ActorState::Started,
            stop_requested: false,
            wait: Vec::new(),
            items: Vec::new(),
            next_handle: 0,
            local: Mailbox::new(capacity),
            sync: None,
            phase: Phase::Idle,
            cursor: 0,
            drained: 0,
            unpolled: false,
            finished: false,
            poisoned: false,
            history: Ghost(Seq::empty()),
        }
    }

    /// Where the actor stands in its lifecycle.
    pub fn state(&self) -> (r: ActorState)
        ensures
            r == self@.state,
    {
        self.state
    }

    /// Whether a sub-future holds up the mailboxes.
    pub fn waiting(&self) -> (r: bool)
        ensures
            r == self@.waiting(),
    {
        self.wait.len() > 0
    }

    /// Whether the actor is neither stopping nor about to.
    pub fn alive(&self) -> (r: bool)
        ensures
            r == self@.alive(),
    {
        self.state.alive() && !self.stop_requested
    }

    /// Whether any producer is left on either mailbox.
    pub fn connected(&self) -> (r: bool)
        ensures
            r == self@.connected(),
    {
        self.local.has_senders() || match &self.sync {
            Some(s) => s.has_senders(),
            None => false,
        }
    }

    /// Whether any sub-future is left.
    pub fn has_work(&self) -> (r: bool)
        ensures
            r == self@.has_work(),
    {
        self.wait.len() > 0 || self.items.len() > 0
    }

    /// Whether mail waits in either mailbox.
    pub fn has_mail(&self) -> (r: bool)
        ensures
            r == self@.has_mail(),
    {
        !self.local.is_empty() || match &self.sync {
            Some(s) => !s.is_empty(),
            None => false,
        }
    }

    /// Whether work is left that nothing will wake the context for.
    pub fn busy(&self) -> (r: bool)
        ensures
            r == self@.busy(),
    {
        self.unpolled || (self.state == ActorState::Running && self.wait.len() == 0
            && !self.stop_requested && self.has_mail())
    }

    /// The capacity of the context's mailboxes; 0 if they are unbounded.
    pub fn capacity(&self) -> (r: usize)
        ensures
            r == self@.local.capacity,
    {
        self.local.capacity()
    }

    /// Whether the context has ended and has said so.
    pub fn finished(&self) -> (r: bool)
        ensures
            r == self@.finished,
    {
        self.finished
    }

    /// Whether the handle names a sub-future of this context.
    pub fn holds(&self, handle: SpawnHandle) -> (r: bool)
        ensures
            r == self@.holds(handle),
    {
        find(&self.wait, handle) < self.wait.len() || find(&self.items, handle) < self.items.len()
    }

    /// How many producers the local mailbox counts.
    pub fn local_senders(&self) -> (r: usize)
        ensures
            r == self@.local.senders,
    {
        self.local.senders()
    }

    /// How many producers the cross-thread mailbox counts; 0 while there is
    /// no such mailbox.
    pub fn sync_senders(&self) -> (r: usize)
        ensures
            r == match self@.sync {
                Some(s) => s.senders,
                None => 0,
            },
    {
        match &self.sync {
            Some(s) => s.senders(),
            None => 0,
        }
    }

    /// Whether another handle can be given out.
    pub fn can_spawn(&self) -> (r: bool)
        ensures
            r == (self@.next_handle < usize::MAX),
    {
        self.next_handle < usize::MAX
    }

    /// Registers a sub-future and gives it a handle. The sub-future is polled
    /// once in every cycle until it completes or is cancelled.
    pub fn spawn(&mut self) -> (handle: SpawnHandle)
        requires
            old(self)@.next_handle < usize::MAX,
        ensures
            (final(self)@, handle) == old(self)@.spawn(),
            old(self)@.inv() ==> final(self)@.inv(),
    {
        proof {
            if self@.inv() {
                self@.lemma_spawn_keeps_inv(false);
            }
        }
        let handle = SpawnHandle::with_id(self.next_handle);
        self.unpolled = self.unpolled || self.late(false);
        self.items.push(handle);
        self.next_handle = self.next_handle + 1;
        handle
    }

    /// Registers a sub-future that holds up the mailboxes: until it completes
    /// or is cancelled, no envelope is handed out.
    pub fn wait(&mut self) -> (handle: SpawnHandle)
        requires
            old(self)@.next_handle < usize::MAX,
        ensures
            (final(self)@, handle) == old(self)@.wait(),
            old(self)@.inv() ==> final(self)@.inv(),
    {
        proof {
            if self@.inv() {
                self@.lemma_spawn_keeps_inv(true);
            }
        }
        let handle = SpawnHandle::with_id(self.next_handle);
        self.unpolled = self.unpolled || self.late(true);
        self.wait.push(handle);
        self.next_handle = self.next_handle + 1;
        handle
    }

    fn late(&self, exclusive: bool) -> (r: bool)
        ensures
            r == self@.late(exclusive),
    {
        match self.phase {
            Phase::Local => true,
            Phase::Sync => true,
            Phase::Verdict => true,
            Phase::Items => exclusive,
            _ => false,
        }
    }

    fn remove(&mut self, handle: SpawnHandle) -> (found: bool)
        ensures
            final(self)@ == old(self)@.without(handle),
            found == old(self)@.holds(handle),
    {
        let w = find(&self.wait, handle);
        if w < self.wait.len() {
            self.wait.remove(w);
            if self.phase == Phase::Wait && w < self.cursor {
                self.cursor = self.cursor - 1;
            }
            return true;
        }
        let i = find(&self.items, handle);
        if i < self.items.len() {
            self.items.remove(i);
            if self.phase == Phase::Items && i < self.cursor {
                self.cursor = self.cursor - 1;
            }
            return true;
        }
        false
    }

    /// Cancels a sub-future: it leaves the context and is polled no more.
    /// Tells whether the handle named one.
    pub fn cancel_future(&mut self, handle: SpawnHandle) -> (found: bool)
        ensures
            final(self)@ == old(self)@.without(handle),
            found == old(self)@.holds(handle),
            old(self)@.inv() ==> final(self)@.inv() && !final(self)@.holds(handle),
    {
        proof {
            if self@.inv() {
                self@.lemma_without_keeps_inv(handle);
            }
        }
        self.remove(handle)
    }

    /// Takes note that a sub-future has completed or failed: it leaves the
    /// context. Tells whether the handle named one.
    pub fn completed(&mut self, handle: SpawnHandle) -> (found: bool)
        ensures
            final(self)@ == old(self)@.without(handle),
            found == old(self)@.holds(handle),
            old(self)@.inv() ==> final(self)@.inv() && !final(self)@.holds(handle),
    {
        proof {
            if self@.inv() {
                self@.lemma_without_keeps_inv(handle);
            }
        }
        self.remove(handle)
    }

    /// Asks the actor to stop at the end of the current cycle.
    pub fn stop(&mut self)
        ensures
            final(self)@ == old(self)@.stop(),
            old(self)@.inv() ==> final(self)@.inv(),
    {
        if self.state != ActorState::Stopped {
            self.stop_requested = true;
        }
    }

    fn shut(&mut self)
        ensures
            final(self)@ == old(self)@.shut(),
    {
        self.state = ActorState::Stopped;
        self.stop_requested = false;
        self.wait.clear();
        self.items.clear();
        self.local.close();
        match self.sync.take() {
            Some(mut s) => {
                s.close();
                self.sync = Some(s);
            },
            None => {},
        }
        self.phase = Phase::Idle;
        self.unpolled = false;
    }

    /// Stops the actor at once, without its `stopping` hook. The next step
    /// asks for the `stopped` hook.
    pub fn terminate(&mut self)
        ensures
            final(self)@ == old(self)@.terminate(),
            old(self)@.inv() ==> final(self)@.inv(),
    {
        proof {
            if self@.inv() {
                self@.lemma_terminate_keeps_inv();
            }
        }
        if self.state != ActorState::Stopped {
            self.shut();
            proof {
                self.history@ = self.history@.push(Lifecycle::Terminated);
            }
        }
    }

    /// Ends the context at once and without a hook, as when the actor has
    /// panicked. From now on the context reports that it has failed.
    pub fn abort(&mut self)
        ensures
            final(self)@ == old(self)@.abort(),
            old(self)@.inv() ==> final(self)@.inv(),
    {
        proof {
            if self@.inv() {
                self@.lemma_abort_keeps_inv();
            }
        }
        if !self.finished {
            self.shut();
            self.finished = true;
            self.poisoned = true;
        }
    }

    /// Takes the answer of the `stopping` hook that the actor is to go on.
    /// It counts only while that answer is awaited.
    pub fn veto(&mut self)
        ensures
            final(self)@ == old(self)@.veto(),
            old(self)@.inv() ==> final(self)@.inv(),
    {
        proof {
            if self@.inv() {
                self@.lemma_veto_keeps_inv();
            }
        }
        if self.phase == Phase::Verdict {
            self.phase = Phase::Idle;
            self.stop_requested = false;
            proof {
                self.history@ = self.history@.push(Lifecycle::Vetoed);
            }
        }
    }

    /// Hands out an address for producers on the actor's own thread.
    pub fn address(&mut self) -> (addr: LocalAddress)
        requires
            old(self)@.local.senders < usize::MAX,
        ensures
            final(self)@ == old(self)@.address(),
            old(self)@.inv() ==> final(self)@.inv(),
    {
        self.local.sender();
        LocalAddress::registered()
    }

    /// Hands out an address for producers on any thread. The cross-thread
    /// mailbox is made when the first such address is asked for, with the
    /// capacity of the local one.
    pub fn address_sync(&mut self) -> (addr: Address)
        requires
            old(self)@.sync matches Some(s) ==> s.senders < usize::MAX,
        ensures
            final(self)@ == old(self)@.address_sync(),
            old(self)@.inv() ==> final(self)@.inv(),
    {
        match self.sync.take() {
            Some(mut s) => {
                s.sender();
                self.sync = Some(s);
            },
            None => {
                let mut s = Mailbox::new(self.local.capacity());
                s.sender();
                self.sync = Some(s);
            },
        }
        Address::registered()
    }

    /// Takes back an address for the actor's own thread.
    pub fn release(&mut self, addr: LocalAddress)
        ensures
            final(self)@ == old(self)@.release(),
            old(self)@.inv() ==> final(self)@.inv(),
    {
        self.local.release();
    }

    /// Takes back an address for any thread.
    pub fn release_sync(&mut self, addr: Address)
        ensures
            final(self)@ == old(self)@.release_sync(),
            old(self)@.inv() ==> final(self)@.inv(),
    {
        match self.sync.take() {
            Some(mut s) => {
                s.release();
                self.sync = Some(s);
            },
            None => {},
        }
    }

    /// The local mailbox, for those who hold a local address.
    pub fn local_mut(&mut self) -> (mailbox: &mut Mailbox<T>)
        ensures
            mailbox@ == old(self)@.local,
            final(self)@ == (ContextView { local: final(mailbox)@, ..old(self)@ }),
    {
        &mut self.local
    }

    /// The cross-thread mailbox, for those who hold a cross-thread address;
    /// `None` while no such address was ever asked for.
    pub fn sync_mut(&mut self) -> (mailbox: Option<&mut Mailbox<T>>)
        ensures
            match old(self)@.sync {
                None => mailbox is None && final(self)@ == old(self)@,
                Some(s) => mailbox is Some && mailbox.unwrap()@ == s && final(self)@ == (
                ContextView { sync: Some(final(mailbox.unwrap())@), ..old(self)@ }),
            },
    {
        self.sync.as_mut()
    }

    fn check(&mut self) -> (step: Step<T>)
        ensures
            (final(self)@, step) == old(self)@.check(),
    {
        let lonely = !self.has_work() && !self.connected();
        let closed = !self.local.connected() && match &self.sync {
            Some(s) => !s.connected(),
            None => true,
        };
        let should_stop = self.stop_requested || closed || lonely;
        if (self.state == ActorState::Running && should_stop) || (self.state
            == ActorState::Stopping && self.stop_requested) {
            self.state = ActorState::Stopping;
            self.stop_requested = false;
            self.phase = Phase::Verdict;
            proof {
                self.history@ = self.history@.push(Lifecycle::Stopping);
            }
            Step::Stopping
        } else {
            if self.state == ActorState::Stopping && !lonely {
                self.state = ActorState::Running;
            }
            self.phase = Phase::Idle;
            let dispatching = self.state == ActorState::Running && self.wait.len() == 0
                && !self.stop_requested;
            if self.unpolled || (dispatching && self.has_mail()) {
                Step::Yield
            } else {
                Step::NotReady
            }
        }
    }

    fn from_sync(&mut self) -> (step: Step<T>)
        ensures
            (final(self)@, step) == old(self)@.from_sync(),
    {
        if self.state == ActorState::Running && self.wait.len() == 0 && !self.stop_requested
            && self.drained < DRAIN_LIMIT {
            let taken = match self.sync.take() {
                Some(mut s) => {
                    let envelope = s.recv();
                    self.sync = Some(s);
                    envelope
                },
                None => None,
            };
            if let Some(envelope) = taken {
                self.drained = self.drained + 1;
                proof {
                    self.history@ = self.history@.push(Lifecycle::Handled);
                }
                return Step::Handle(envelope);
            }
        }
        self.check()
    }

    fn from_local(&mut self) -> (step: Step<T>)
        ensures
            (final(self)@, step) == old(self)@.from_local(),
    {
        if self.state == ActorState::Running && self.wait.len() == 0 && !self.stop_requested
            && self.drained < DRAIN_LIMIT {
            if let Some(envelope) = self.local.recv() {
                self.drained = self.drained + 1;
                proof {
                    self.history@ = self.history@.push(Lifecycle::Handled);
                }
                return Step::Handle(envelope);
            }
        }
        self.phase = Phase::Sync;
        self.drained = 0;
        self.from_sync()
    }

    fn from_items(&mut self) -> (step: Step<T>)
        ensures
            (final(self)@, step) == old(self)@.from_items(),
    {
        if self.cursor < self.items.len() {
            let handle = self.items[self.cursor];
            self.cursor = self.cursor + 1;
            return Step::Poll(handle);
        }
        self.phase = Phase::Local;
        self.drained = 0;
        self.from_local()
    }

    fn from_wait(&mut self) -> (step: Step<T>)
        ensures
            (final(self)@, step) == old(self)@.from_wait(),
    {
        if self.cursor < self.wait.len() {
            let handle = self.wait[self.cursor];
            self.cursor = self.cursor + 1;
            return Step::Poll(handle);
        }
        self.phase = Phase::Items;
        self.cursor = 0;
        self.from_items()
    }

    /// Takes one step and says what the caller is to do.
    ///
    /// The caller performs what the step asks for and then calls `poll`
    /// again, until the step is one that ends the cycle (`Yield`, `NotReady`)
    /// or tells that the context is over (`Ready`, `Failed`).
    pub fn poll(&mut self) -> (step: Step<T>)
        ensures
            (final(self)@, step) == old(self)@.poll(),
            old(self)@.inv() ==> final(self)@.inv(),
    {
        proof {
            if self@.inv() {
                self@.lemma_poll_keeps_inv();
            }
        }
        if self.state == ActorState::Stopped {
            if self.finished {
                if self.poisoned {
                    return Step::Failed;
                }
                return Step::Ready;
            }
            self.finished = true;
            proof {
                self.history@ = self.history@.push(Lifecycle::Stopped);
            }
            return Step::Stopped;
        }
        if self.phase == Phase::Verdict {
            self.shut();
            self.finished = true;
            proof {
                self.history@ = self.history@.push(Lifecycle::Stopped);
            }
            return Step::Stopped;
        }
        if self.state == ActorState::Started {
            self.state = ActorState::Running;
            self.phase = Phase::Wait;
            self.cursor = 0;
            self.unpolled = false;
            proof {
                self.history@ = self.history@.push(Lifecycle::Started);
            }
            return Step::Started;
        }
        match self.phase {
            Phase::Idle => {
                self.phase = Phase::Wait;
                self.cursor = 0;
                self.unpolled = false;
                self.from_wait()
            },
            Phase::Wait => self.from_wait(),
            Phase::Items => self.from_items(),
            Phase::Local => self.from_local(),
            Phase::Sync => self.from_sync(),
            Phase::Verdict => self.check(),
        }
    }
}

/// Finds the first place of a handle in a list; the length of the list if
/// it is not there.
fn find(list: &Vec<SpawnHandle>, handle: SpawnHandle) -> (at: usize)
    ensures
        at == position(list@, handle),
{
    let mut i: usize = 0;
    while i < list.len()
        invariant
            i <= list.len(),
            position(list@, handle) == position_from(list@, handle, i as int),
        decreases list.len() - i,
    {
        if list[i] == handle {
            return i;
        }
        i = i + 1;
    }
    i
}

} // verus!
