//! Services: named bundles of bindings from event names to handlers.
use vstd::prelude::*;
use crate::kernel::event_bus::{EventBus, NyaEventBus};

verus! {

/// One binding of a service: a handler for an event name.
pub struct Registration<H> {
    pub event: String,
    pub handler: H,
}

/// The bindings of a service, in the order in which they are registered.
pub type ServiceRegister<H> = Vec<Registration<H>>;

/// A named bundle of bindings. A service is registered once, when the
/// runtime is built.
pub trait Service {
    /// What stands for a handler of this service.
    type Handler;

    /// The name of the service.
    fn name(&self) -> String;

    /// The bindings of the service.
    fn register(&self) -> ServiceRegister<Self::Handler>;
}

/// The handlers that a list of registrations binds to `event`, in the order
/// of the list.
pub open spec fn registered_for<H>(registrations: Seq<Registration<H>>, event: Seq<char>) -> Seq<H>
    decreases registrations.len(),
{
    if registrations.len() == 0 {
        Seq::empty()
    } else if registrations.last().event@ == event {
        registered_for(registrations.drop_last(), event).push(registrations.last().handler)
    } else {
        registered_for(registrations.drop_last(), event)
    }
}

/// Builds the event bus from the registrations of all services: every
/// handler is bound to its event, and the handlers of one event stand in the
/// order in which they were registered.
pub fn build_nya_bus<H>(reg: Vec<Registration<H>>) -> (bus: NyaEventBus<H>)
    ensures
        forall|event: Seq<char>| #[trigger] bus.handlers_of(event) == registered_for(reg@, event),
{
    let ghost all = reg@;
    let mut nya_event_bus: NyaEventBus<H> = NyaEventBus::new();
    let mut rest = reg;
    let mut pending: Vec<Registration<H>> = Vec::new();
    // The registrations are taken from the end, so they are turned round
    // first.
    while rest.len() > 0
        invariant
            rest@.len() + pending@.len() == all.len(),
            forall|i: int| 0 <= i < rest@.len() ==> rest@[i] == all[i],
            forall|i: int|
                0 <= i < pending@.len() ==> pending@[i] == all[all.len() - 1 - i],
        decreases rest.len(),
    {
        let last = rest.pop();
        match last {
            Some(registration) => {
                pending.push(registration);
            },
            None => {},
        }
    }
    let ghost mut done: int = 0;
    while pending.len() > 0
        invariant
            0 <= done <= all.len(),
            pending@.len() + done == all.len(),
            forall|i: int|
                0 <= i < pending@.len() ==> pending@[i] == all[all.len() - 1 - i],
            forall|event: Seq<char>|
                #[trigger] nya_event_bus.handlers_of(event) == registered_for(
                    all.take(done),
                    event,
                ),
        decreases pending.len(),
    {
        let next = pending.pop();
        match next {
            Some(registration) => {
                proof {
                    assert(registration == all[done]);
                    assert(all.take(done + 1).drop_last() =~= all.take(done));
                    assert(all.take(done + 1).last() == all[done]);
                }
                let ghost name = registration.event@;
                let ghost before = nya_event_bus;
                nya_event_bus.on(registration.event, registration.handler);
                proof {
                    assert forall|event: Seq<char>| #[trigger]
                        nya_event_bus.handlers_of(event) == registered_for(
                            all.take(done + 1),
                            event,
                        ) by {
                        if event == name {
                            assert(nya_event_bus.bound(event) == before.bound(event).push(
                                all[done].handler,
                            ));
                        } else {
                            assert(nya_event_bus.bound(event) == before.bound(event));
                        }
                        assert(before.handlers_of(event) == registered_for(all.take(done), event));
                    }
                    done = done + 1;
                }
            },
            None => {},
        }
    }
    proof {
        assert(all.take(done) =~= all);
    }
    nya_event_bus
}

} // verus!
