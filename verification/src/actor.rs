//! What an actor is to the runtime: a value with lifecycle hooks.

use vstd::prelude::*;

verus! {

/// Where an actor stands in its lifecycle.
#[derive(Debug, Clone, Copy, PartialEq, Eq, Structural)]
pub enum ActorState {
    /// Created; the `started` hook has not run yet.
    Started,
    /// Running: mail is dispatched and sub-futures are polled.
    Running,
    /// The `stopping` hook has been asked whether the actor may stop.
    Stopping,
    /// The actor has ended.
    Stopped,
}

impl ActorState {
    /// An actor is alive until it begins to stop.
    pub open spec fn spec_alive(&self) -> bool {
        self is Started || self is Running
    }

    /// Tells whether the actor has not begun to stop.
    #[verifier::when_used_as_spec(spec_alive)]
    pub fn alive(&self) -> (r: bool)
        ensures
            r == self.spec_alive(),
    {
        match self {
            ActorState::Started => true,
            ActorState::Running => true,
            _ => false,
        }
    }

    /// An actor is stopping from the moment its `stopping` hook is asked.
    pub open spec fn spec_stopping(&self) -> bool {
        self is Stopping || self is Stopped
    }

    /// Tells whether the actor stops or has stopped.
    #[verifier::when_used_as_spec(spec_stopping)]
    pub fn stopping(&self) -> (r: bool)
        ensures
            r == self.spec_stopping(),
    {
        match self {
            ActorState::Stopping => true,
            ActorState::Stopped => true,
            _ => false,
        }
    }
}

/// Names one sub-future that a context drives, so that it can be cancelled.
#[derive(Debug, Clone, Copy, PartialEq, Eq, Hash, Structural)]
pub struct SpawnHandle {
    id: usize,
}

impl SpawnHandle {
    /// The handle with the given number.
    pub closed spec fn of(id: nat) -> SpawnHandle {
        SpawnHandle { id: id as usize }
    }

    /// The number that tells this handle from every other of its context.
    pub closed spec fn spec_id(&self) -> usize {
        self.id
    }

    /// Makes the handle with the given number.
    pub(crate) fn with_id(id: usize) -> (h: SpawnHandle)
        ensures
            h == SpawnHandle::of(id as nat),
    {
        SpawnHandle { id }
    }

    /// The number that tells this handle from every other of its context.
    #[verifier::when_used_as_spec(spec_id)]
    pub fn id(&self) -> (r: usize)
        ensures
            r == self.spec_id(),
    {
        self.id
    }

    /// A handle is known by its number: the handle made with a number has
    /// that number.
    pub proof fn lemma_of_id(id: nat)
        requires
            id <= usize::MAX,
        ensures
            SpawnHandle::of(id).spec_id() == id,
    {
    }
}

/// An actor: a value that a context drives through its lifecycle. The hooks
/// are called by whoever runs the context, in the order in which the context
/// asks for them.
pub trait Actor: Sized {
    /// The execution context that drives this kind of actor.
    type Context;

    /// Called once, before any message is handled.
    fn started(&mut self, ctx: &mut Self::Context) {
    }

    /// Called when the context is about to stop the actor. Returns `true` to
    /// let it stop and `false` to keep the actor running.
    fn stopping(&mut self, ctx: &mut Self::Context) -> bool {
        true
    }

    /// Called once, after the actor has stopped.
    fn stopped(&mut self, ctx: &mut Self::Context) {
    }
}

/// An actor that a supervisor may restart.
pub trait Supervised: Actor {
    /// Called on the fresh context each time the supervisor restarts the actor.
    fn restarting(&mut self, ctx: &mut Self::Context) {
    }
}

} // verus!
