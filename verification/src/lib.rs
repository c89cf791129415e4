//! An orchestration runtime for building and destroying a small cluster: a
//! schema of named steps, an event bus that binds handlers to the steps, an
//! execution context that the handlers share, and the decisions of the
//! handlers that drive the provisioning tool. The library decides and keeps
//! the books; starting processes, reading files and running handlers side by
//! side is the caller's part.
use vstd::prelude::*;

pub mod args;
pub mod cli;
pub mod codec;
pub mod core_services;
pub mod embedded;
pub mod json;
pub mod kernel;
pub mod pattern;
pub mod runtime;
pub mod text;

use crate::text::{last_segment, short_name_of};

verus! {

/// An event that goes by a name and handles a payload of its own kind.
pub trait Event {
    /// What the event's handler works on.
    type Payload;

    /// The full name of the event, with the path of the module that holds
    /// it, its segments separated by `::`.
    const NAME: &'static str;

    /// The full name of the event.
    fn name(&self) -> (r: &'static str)
        ensures
            r@ == Self::NAME@,
    {
        Self::NAME
    }

    /// The short name of the event: the last segment of its full name, which
    /// is what follows the last `::`, or the whole name where it holds none.
    fn short_name(&self) -> (r: &'static str)
        ensures
            r@ == last_segment(Self::NAME@),
    {
        short_name_of(self.name())
    }

    /// Handles a payload, which it may change.
    fn handler(&self, payload: &mut Self::Payload);
}

} // verus!
