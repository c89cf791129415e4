//! Handlers as objects: something with a name that can be run on a payload.
use vstd::prelude::*;
use crate::kernel::payload::Payload;
use crate::text::{last_segment, short_name_of};

verus! {

/// What can be handed to a task that runs beside others.
pub trait AsyncHandler: Send + Sync + 'static {

}

impl<T: Send + Sync + 'static> AsyncHandler for T {

}

/// A handler that goes by a name.
pub trait Handler: AsyncHandler {
    /// The full name of the handler, with the path of the module that holds
    /// it, its segments separated by `::`.
    const NAME: &'static str;

    /// The full name of the handler.
    fn name(&self) -> (r: &'static str)
        ensures
            r@ == Self::NAME@,
    {
        Self::NAME
    }

    /// The short name of the handler: the last segment of its full name,
    /// which is what follows the last `::`, or the whole name where it holds
    /// none.
    fn short_name(&self) -> (r: &'static str)
        ensures
            r@ == last_segment(Self::NAME@),
    {
        short_name_of(self.name())
    }

    /// Runs the handler on a payload.
    fn run(&self, payload: Payload);
}

} // verus!
