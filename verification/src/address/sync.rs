//! The two ways to an actor.

use crate::address::Destination;
use vstd::prelude::*;

verus! {

/// The cross-thread destination: the actor may run in another thread. Its
/// transport is the cross-thread mailbox of the actor.
#[derive(Debug)]
pub struct Syn;

impl Destination for Syn {

}

/// The local destination: the actor runs in the producer's thread. Its
/// transport is the local mailbox of the actor.
#[derive(Debug)]
pub struct Unsync;

impl Destination for Unsync {

}

} // verus!
