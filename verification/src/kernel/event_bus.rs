//! The event bus: which handlers are bound to which event name, and the
//! bookkeeping of one emission.
//!
//! The bus does not run handlers. `emit` says which handlers an emission
//! has to run; the caller starts them, all at once, and tells an
//! [`Emission`] of each one that has finished. The emission is resolved when
//! all of them have.
use vstd::prelude::*;
use crate::text::{
    join2, last_index, lemma_last_index, lemma_last_index_is, lemma_last_index_none, same_text, texts,
};
use vstd::string::StringExecFns;

verus! {

/// The handlers bound to one event name, in the order in which they were
/// bound.
pub struct Binding<H> {
    pub event: String,
    pub handlers: Vec<H>,
}

/// The event names of a list of bindings, binding by binding.
pub open spec fn names_of<H>(bindings: Seq<Binding<H>>) -> Seq<Seq<char>> {
    Seq::new(bindings.len(), |i: int| bindings[i].event@)
}

/// The position of the last binding for `event`, if there is one.
pub open spec fn binding_position<H>(bindings: Seq<Binding<H>>, event: Seq<char>) -> Option<int> {
    last_index(names_of(bindings), event)
}

/// The handlers that `bindings` hold for `event`: none where the event has no
/// binding.
pub open spec fn bound_handlers<H>(bindings: Seq<Binding<H>>, event: Seq<char>) -> Seq<H> {
    match binding_position(bindings, event) {
        Some(i) => bindings[i].handlers@,
        None => Seq::empty(),
    }
}

/// The table from event names to the handlers bound to them.
pub struct NyaEventBus<H> {
    event_handlers: Vec<Binding<H>>,
}

impl<H> NyaEventBus<H> {
    /// The bindings of the bus, one for each event name that has a handler.
    pub closed spec fn bindings(&self) -> Seq<Binding<H>> {
        self.event_handlers@
    }

    /// The handlers bound to `event`, in the order in which they were bound.
    pub open spec fn handlers_of(&self, event: Seq<char>) -> Seq<H> {
        bound_handlers(self.bindings(), event)
    }

    /// Whether `event` has a handler.
    pub open spec fn is_bound(&self, event: Seq<char>) -> bool {
        binding_position(self.bindings(), event) is Some
    }

    /// The bus without a binding.
    pub fn new() -> (r: NyaEventBus<H>)
        ensures
            r.bindings().len() == 0,
            forall|event: Seq<char>| #[trigger] r.handlers_of(event) == Seq::<H>::empty(),
    {
        NyaEventBus { event_handlers: Vec::new() }
    }

    /// The number of event names that have a handler.
    pub fn len(&self) -> (n: usize)
        ensures
            n == self.bindings().len(),
    {
        self.event_handlers.len()
    }

    /// The position of the binding for `event`.
    fn find(&self, event: &str) -> (r: Option<usize>)
        ensures
            match binding_position(self.bindings(), event@) {
                Some(i) => r matches Some(k) && k == i && 0 <= i < self.bindings().len(),
                None => r is None,
            },
    {
        let mut i: usize = self.event_handlers.len();
        while i > 0
            invariant
                i <= self.event_handlers.len(),
                forall|j: int|
                    i <= j < self.event_handlers.len() ==> self.event_handlers@[j].event@ != event@,
            decreases i,
        {
            i = i - 1;
            if same_text(self.event_handlers[i].event.as_str(), event) {
                proof {
                    lemma_last_index_is(names_of(self.event_handlers@), event@, i as int);
                }
                return Some(i);
            }
        }
        proof {
            lemma_last_index_none(names_of(self.event_handlers@), event@);
        }
        None
    }
}

/// Binding handlers to event names and asking which handlers an emission
/// runs.
pub trait EventBus<H> {
    /// The handlers bound to `event`, in the order in which they were bound.
    spec fn bound(&self, event: Seq<char>) -> Seq<H>;

    /// The number of event names that have a binding.
    spec fn names(&self) -> nat;

    /// Whether `event` has a binding.
    spec fn has(&self, event: Seq<char>) -> bool;

    /// Binds one more handler to `event`, after those already bound to it.
    /// Every other event keeps its handlers.
    fn on(&mut self, event: String, handler: H)
        ensures
            final(self).bound(event@) == old(self).bound(event@).push(handler),
            final(self).has(event@),
            final(self).names() == old(self).names() + if old(self).has(event@) {
                0nat
            } else {
                1nat
            },
            forall|other: Seq<char>|
                other != event@ ==> #[trigger] final(self).bound(other) == old(self).bound(other),
    ;

    /// The handlers that an emission of `event` runs: every handler bound to
    /// the event, each once, in the order in which they were bound. An event
    /// without a handler gives the empty list, and the bus is left as it
    /// was.
    fn emit(&self, event: &str) -> (scheduled: Vec<&H>)
        ensures
            scheduled@.len() == self.bound(event@).len(),
            forall|i: int| 0 <= i < scheduled@.len() ==> *scheduled@[i] == self.bound(event@)[i],
    ;
}

impl<H> EventBus<H> for NyaEventBus<H> {
    open spec fn bound(&self, event: Seq<char>) -> Seq<H> {
        self.handlers_of(event)
    }

    open spec fn names(&self) -> nat {
        self.bindings().len()
    }

    open spec fn has(&self, event: Seq<char>) -> bool {
        self.is_bound(event)
    }

    fn on(&mut self, event: String, handler: H) {
        let ghost before = self.event_handlers@;
        match self.find(event.as_str()) {
            Some(i) => {
                let mut binding = self.event_handlers.remove(i);
                binding.handlers.push(handler);
                self.event_handlers.insert(i, binding);
                proof {
                    let after = self.event_handlers@;
                    lemma_last_index(names_of(before), event@);
                    assert(names_of(after) =~= names_of(before));
                    lemma_last_index_is(names_of(after), event@, i as int);
                    assert forall|other: Seq<char>| other != event@ implies bound_handlers(
                        after,
                        other,
                    ) == bound_handlers(before, other) by {
                        lemma_last_index(names_of(before), other);
                        match binding_position(before, other) {
                            Some(k) => {
                                lemma_last_index_is(names_of(after), other, k);
                            },
                            None => {
                                lemma_last_index_none(names_of(after), other);
                            },
                        }
                    }
                }
            },
            None => {
                let mut handlers: Vec<H> = Vec::new();
                handlers.push(handler);
                let ghost name = event@;
                self.event_handlers.push(Binding { event, handlers });
                proof {
                    let after = self.event_handlers@;
                    assert(names_of(after) =~= names_of(before).push(name));
                    lemma_last_index(names_of(before), name);
                    lemma_last_index_is(names_of(after), name, before.len() as int);
                    assert(Seq::<H>::empty().push(handler) =~= after[before.len() as int].handlers@);
                    assert forall|other: Seq<char>| other != name implies bound_handlers(
                        after,
                        other,
                    ) == bound_handlers(before, other) by {
                        lemma_last_index(names_of(before), other);
                        match binding_position(before, other) {
                            Some(k) => {
                                lemma_last_index_is(names_of(after), other, k);
                            },
                            None => {
                                lemma_last_index_none(names_of(after), other);
                            },
                        }
                    }
                }
            },
        }
    }

    fn emit(&self, event: &str) -> (scheduled: Vec<&H>) {
        let mut scheduled: Vec<&H> = Vec::new();
        match self.find(event) {
            Some(i) => {
                let handlers = &self.event_handlers[i].handlers;
                let mut k: usize = 0;
                while k < handlers.len()
                    invariant
                        k <= handlers.len(),
                        scheduled@.len() == k,
                        forall|j: int| 0 <= j < k ==> *scheduled@[j] == handlers@[j],
                    decreases handlers.len() - k,
                {
                    scheduled.push(&handlers[k]);
                    k = k + 1;
                }
            },
            None => {},
        }
        scheduled
    }
}

/// How one handler of an emission ended.
pub enum Outcome {
    /// The handler ran to its end.
    Completed,
    /// The handler broke off; the text says how.
    Failed(String),
}

/// `flags` with the handler at `index` marked as finished; an index that
/// stands for no handler changes nothing.
pub open spec fn mark(flags: Seq<bool>, index: int) -> Seq<bool> {
    if 0 <= index < flags.len() {
        flags.update(index, true)
    } else {
        flags
    }
}

/// Whether every handler is marked as finished.
pub open spec fn all_finished(flags: Seq<bool>) -> bool {
    forall|i: int| 0 <= i < flags.len() ==> flags[i]
}

/// The report of a handler that broke off in a step.
pub open spec fn failure_report(step: Seq<char>, diagnostic: Seq<char>) -> Seq<char> {
    "Step '"@ + step + "' failed: "@ + diagnostic
}

/// The completion of one emission: which of its handlers have finished, and
/// what the ones that broke off reported. A handler that broke off has
/// finished too: it holds up neither its siblings nor the emission.
pub struct Emission {
    step: String,
    finished: Vec<bool>,
    reports: Vec<String>,
}

impl Emission {
    /// The event name of the emission.
    pub closed spec fn step(&self) -> Seq<char> {
        self.step@
    }

    /// For each handler of the emission, whether it has finished.
    pub closed spec fn flags(&self) -> Seq<bool> {
        self.finished@
    }

    /// The reports of the handlers that broke off, in the order in which they
    /// came in.
    pub closed spec fn reports(&self) -> Seq<Seq<char>> {
        texts(self.reports@)
    }

    /// The completion of an emission of `step` that runs `handlers` handlers,
    /// none of which has finished yet.
    pub fn new(step: &str, handlers: usize) -> (r: Emission)
        ensures
            r.step() == step@,
            r.flags() == Seq::new(handlers as nat, |i: int| false),
            r.reports() == Seq::<Seq<char>>::empty(),
    {
        let mut finished: Vec<bool> = Vec::new();
        let mut i: usize = 0;
        while i < handlers
            invariant
                i <= handlers,
                finished@ == Seq::new(i as nat, |i: int| false),
            decreases handlers - i,
        {
            finished.push(false);
            i = i + 1;
            assert(finished@ =~= Seq::new(i as nat, |i: int| false));
        }
        let r = Emission { step: step.to_owned(), finished, reports: Vec::new() };
        assert(r.reports() =~= Seq::<Seq<char>>::empty());
        r
    }

    /// Takes in that the handler at `index` has finished. A handler that
    /// broke off is reported; the emission goes on either way.
    pub fn finish(&mut self, index: usize, outcome: Outcome)
        ensures
            final(self).step() == old(self).step(),
            final(self).flags() == mark(old(self).flags(), index as int),
            final(self).reports() == match outcome {
                Outcome::Completed => old(self).reports(),
                Outcome::Failed(diagnostic) => if index < old(self).flags().len() {
                    old(self).reports().push(failure_report(old(self).step(), diagnostic@))
                } else {
                    old(self).reports()
                },
            },
    {
        if index < self.finished.len() {
            self.finished.set(index, true);
            match outcome {
                Outcome::Completed => {},
                Outcome::Failed(diagnostic) => {
                    let mut report = join2("Step '", self.step.as_str());
                    report.append("' failed: ");
                    report.append(diagnostic.as_str());
                    let ghost before = texts(self.reports@);
                    self.reports.push(report);
                    assert(texts(self.reports@) =~= before.push(
                        failure_report(self.step@, diagnostic@),
                    ));
                },
            }
        }
    }

    /// The event name of the emission.
    pub fn step_name(&self) -> (r: &str)
        ensures
            r@ == self.step(),
    {
        self.step.as_str()
    }

    /// Whether the emission is resolved: every one of its handlers has
    /// finished. An emission without handlers is resolved from the start.
    pub fn is_resolved(&self) -> (r: bool)
        ensures
            r == all_finished(self.flags()),
    {
        let mut i: usize = 0;
        while i < self.finished.len()
            invariant
                i <= self.finished.len(),
                forall|j: int| 0 <= j < i ==> self.finished@[j],
            decreases self.finished.len() - i,
        {
            if !self.finished[i] {
                return false;
            }
            i = i + 1;
        }
        true
    }

    /// The reports of the handlers that broke off.
    pub fn failures(&self) -> (r: &Vec<String>)
        ensures
            texts(r@) == self.reports(),
    {
        &self.reports
    }
}

/// The flags after the handlers at the positions `order` have finished, one
/// after the other.
pub open spec fn finish_in_order(flags: Seq<bool>, order: Seq<int>) -> Seq<bool>
    decreases order.len(),
{
    if order.len() == 0 {
        flags
    } else {
        mark(finish_in_order(flags, order.drop_last()), order.last())
    }
}

/// A handler is marked as finished after a run of completions exactly when it
/// was marked before or is among those that completed.
pub proof fn lemma_finish_in_order(flags: Seq<bool>, order: Seq<int>)
    ensures
        finish_in_order(flags, order).len() == flags.len(),
        forall|i: int|
            0 <= i < flags.len() ==> (#[trigger] finish_in_order(flags, order)[i] <==> flags[i]
                || order.contains(i)),
    decreases order.len(),
{
    if order.len() > 0 {
        let shorter = order.drop_last();
        lemma_finish_in_order(flags, shorter);
        assert forall|i: int| 0 <= i < flags.len() implies (#[trigger] finish_in_order(
            flags,
            order,
        )[i] <==> flags[i] || order.contains(i)) by {
            assert(order.contains(i) <==> shorter.contains(i) || order.last() == i) by {
                if shorter.contains(i) {
                    let k = choose|k: int| 0 <= k < shorter.len() && shorter[k] == i;
                    assert(order[k] == i);
                }
                if order.last() == i {
                    assert(order[order.len() - 1] == i);
                }
                if order.contains(i) {
                    let k = choose|k: int| 0 <= k < order.len() && order[k] == i;
                    if k < order.len() - 1 {
                        assert(shorter[k] == i);
                    }
                }
            }
        }
    }
}

/// An emission that runs `handlers` handlers is resolved after a run of
/// completions exactly when every one of its handlers is among those that
/// completed, in whatever order they did; with no handler it is resolved at
/// once.
pub proof fn law_resolved_when_all_finished(handlers: nat, order: Seq<int>)
    ensures
        all_finished(finish_in_order(Seq::new(handlers, |i: int| false), order)) <==> (forall|
            i: int,
        |
            0 <= i < handlers ==> order.contains(i)),
        handlers == 0 ==> all_finished(Seq::new(handlers, |i: int| false)),
{
    let fresh = Seq::new(handlers, |i: int| false);
    lemma_finish_in_order(fresh, order);
    let after = finish_in_order(fresh, order);
    if all_finished(after) {
        assert forall|i: int| 0 <= i < handlers implies order.contains(i) by {
            assert(after[i]);
        }
    }
    if forall|i: int| 0 <= i < handlers ==> order.contains(i) {
        assert forall|i: int| 0 <= i < after.len() implies after[i] by {
            assert(order.contains(i));
        }
    }
}

/// An event without a handler: its emission runs nothing, and it is resolved
/// from the start.
pub proof fn law_unbound_event_resolves_at_once<H>(bus: NyaEventBus<H>, event: Seq<char>)
    requires
        !bus.is_bound(event),
    ensures
        bus.handlers_of(event).len() == 0,
        all_finished(Seq::new(bus.handlers_of(event).len(), |i: int| false)),
{
}

} // verus!
