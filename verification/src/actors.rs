//! Actors that come with the runtime.

pub mod resolver;
