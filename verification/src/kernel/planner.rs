//! The planner: which step of a schema runs when.
//!
//! Steps run strictly in the order of the schema. A step is emitted, its
//! handlers run, and only when the emission is resolved is the next step
//! emitted: each step is a barrier. The planner decides; the caller emits and
//! waits.
use vstd::prelude::*;
use vstd::string::StringExecFns;
use crate::kernel::event_bus::{all_finished, Emission, EventBus, NyaEventBus};
use crate::kernel::schema::NyaSchema;
use crate::text::{decimal, decimal_text, join2, same_text, texts};

verus! {

/// Where a run stands.
#[derive(Debug, Clone, Copy, PartialEq, Eq, Structural)]
pub enum RunState {
    /// The run has not begun.
    Idle,
    /// The step at this position of the schema has been emitted and is not
    /// yet resolved.
    Running(usize),
    /// Every step has been emitted and resolved.
    Completed,
}

/// What the caller is to do next.
#[derive(Debug, PartialEq)]
pub enum RunAction {
    /// Emit the step at `index`, whose event name is `step`, and come back
    /// when the emission is resolved.
    Emit { index: usize, step: String },
    /// Nothing: the running step is not resolved, or there is no running
    /// step.
    Wait,
    /// The run is over.
    Finish,
}

/// The state in which a run of `steps` steps begins.
pub open spec fn begin(steps: nat) -> RunState {
    if steps == 0 {
        RunState::Completed
    } else {
        RunState::Running(0)
    }
}

/// The state after the caller has come back from a step: a run whose running
/// step is resolved moves on to the next step, or ends after the last one;
/// anything else leaves the state as it is.
pub open spec fn advance(state: RunState, steps: nat, resolved: bool) -> RunState {
    match state {
        RunState::Running(i) => if resolved {
            if i + 1 < steps {
                RunState::Running((i + 1) as usize)
            } else {
                RunState::Completed
            }
        } else {
            state
        },
        _ => state,
    }
}

/// Whether `action` is what a change into `state` asks of the caller.
pub open spec fn asks(action: RunAction, state: RunState, steps: Seq<Seq<char>>) -> bool {
    match state {
        RunState::Running(i) => action matches RunAction::Emit { index, step } && index == i && i
            < steps.len() && step@ == steps[i as int],
        RunState::Completed => action is Finish,
        RunState::Idle => action is Wait,
    }
}

/// The sequencer of one run.
pub struct Planner<H> {
    event_bus: NyaEventBus<H>,
    schema: NyaSchema,
    state: RunState,
}

impl<H> Planner<H> {
    /// The steps of the schema.
    pub closed spec fn steps(&self) -> Seq<Seq<char>> {
        texts(self.schema.steps@)
    }

    /// Where the run stands.
    pub closed spec fn state(&self) -> RunState {
        self.state
    }

    /// The event bus of the run.
    pub closed spec fn bus(&self) -> NyaEventBus<H> {
        self.event_bus
    }

    /// The running step is a step of the schema.
    #[verifier::type_invariant]
    spec fn running_step_exists(self) -> bool {
        self.state matches RunState::Running(i) ==> i < self.schema.steps@.len()
    }

    /// A planner for a schema and a bus, with the run not yet begun.
    pub fn new(bus: NyaEventBus<H>, schema: NyaSchema) -> (r: Planner<H>)
        ensures
            r.steps() == texts(schema.steps@),
            r.state() == RunState::Idle,
            r.bus() == bus,
    {
        Planner { event_bus: bus, schema, state: RunState::Idle }
    }

    /// The action that the present state asks for.
    fn action(&self) -> (r: RunAction)
        ensures
            asks(r, self.state(), self.steps()),
    {
        proof {
            use_type_invariant(self);
        }
        match self.state {
            RunState::Running(i) => RunAction::Emit { index: i, step: self.schema.steps[i].clone() },
            RunState::Completed => RunAction::Finish,
            RunState::Idle => RunAction::Wait,
        }
    }

    /// Begins the run: the first step is to be emitted, or the run is over at
    /// once where the schema has no step. A run that has begun is left as it
    /// is.
    pub fn execute(&mut self) -> (r: RunAction)
        ensures
            final(self).steps() == old(self).steps(),
            final(self).bus() == old(self).bus(),
            old(self).state() is Idle ==> final(self).state() == begin(old(self).steps().len())
                && asks(r, final(self).state(), final(self).steps()),
            !(old(self).state() is Idle) ==> final(self).state() == old(self).state() && r is Wait,
    {
        match self.state {
            RunState::Idle => {
                if self.schema.steps.len() == 0 {
                    self.state = RunState::Completed;
                } else {
                    self.state = RunState::Running(0);
                }
                self.action()
            },
            _ => RunAction::Wait,
        }
    }

    /// Whether `emission` is the emission of the running step and is
    /// resolved.
    pub open spec fn settles(&self, emission: &Emission) -> bool {
        &&& self.state() matches RunState::Running(i)
        &&& i < self.steps().len()
        &&& emission.step() == self.steps()[i as int]
        &&& all_finished(emission.flags())
    }

    /// Takes in that the caller has come back with the emission of the
    /// running step. Where that emission is resolved, the next step is to be
    /// emitted, or the run is over after the last step. Otherwise the run
    /// stays where it is and the caller is to wait: no step is emitted before
    /// the one before it is resolved. Handlers that broke off do not stop
    /// the run.
    pub fn step_done(&mut self, emission: &Emission) -> (r: RunAction)
        ensures
            final(self).steps() == old(self).steps(),
            final(self).bus() == old(self).bus(),
            final(self).state() == advance(
                old(self).state(),
                old(self).steps().len(),
                old(self).settles(emission),
            ),
            old(self).settles(emission) ==> asks(r, final(self).state(), final(self).steps()),
            !old(self).settles(emission) ==> r is Wait,
    {
        proof {
            use_type_invariant(&*self);
        }
        match self.state {
            RunState::Running(i) => {
                let total = self.schema.steps.len();
                if same_text(emission.step_name(), self.schema.steps[i].as_str())
                    && emission.is_resolved() {
                    if i + 1 < total {
                        self.state = RunState::Running(i + 1);
                    } else {
                        self.state = RunState::Completed;
                    }
                    self.action()
                } else {
                    RunAction::Wait
                }
            },
            _ => RunAction::Wait,
        }
    }

    /// The handlers that an emission of `event` runs.
    pub fn emit(&self, event: &str) -> (scheduled: Vec<&H>)
        ensures
            scheduled@.len() == self.bus().handlers_of(event@).len(),
            forall|i: int|
                0 <= i < scheduled@.len() ==> *scheduled@[i] == self.bus().handlers_of(event@)[i],
    {
        self.event_bus.emit(event)
    }

    /// Where the run stands.
    pub fn current(&self) -> (r: RunState)
        ensures
            r == self.state(),
    {
        self.state
    }

    /// The steps of the schema.
    pub fn schema(&self) -> (r: &NyaSchema)
        ensures
            texts(r.steps@) == self.steps(),
    {
        &self.schema
    }
}

/// The state of a run of `steps` steps after it has begun and the caller has
/// come back `settled.len()` times; `settled[k]` says whether the `k`-th time
/// it came with the resolved emission of the running step.
pub open spec fn replay(steps: nat, settled: Seq<bool>) -> RunState
    decreases settled.len(),
{
    if settled.len() == 0 {
        begin(steps)
    } else {
        advance(replay(steps, settled.drop_last()), steps, settled.last())
    }
}

/// How many times the caller came back with the resolved emission of the
/// running step.
pub open spec fn settled_count(settled: Seq<bool>) -> nat
    decreases settled.len(),
{
    if settled.len() == 0 {
        0
    } else {
        settled_count(settled.drop_last()) + if settled.last() {
            1nat
        } else {
            0nat
        }
    }
}

/// The barrier: at every moment of a run, the step that is running is the
/// one whose position is the number of emissions resolved so far. So the
/// steps are emitted in the order of the schema, none is skipped, and a step
/// is emitted only after the emission of the step before it was resolved.
/// The run is completed exactly when as many emissions were resolved as the
/// schema has steps.
pub proof fn law_step_barrier(steps: nat, settled: Seq<bool>)
    requires
        steps <= usize::MAX,
    ensures
        replay(steps, settled) == if settled_count(settled) < steps {
            RunState::Running(settled_count(settled) as usize)
        } else {
            RunState::Completed
        },
    decreases settled.len(),
{
    if settled.len() > 0 {
        law_step_barrier(steps, settled.drop_last());
    }
}

/// The line that tells that a step begins.
pub open spec fn banner_text(index: nat, total: nat, step: Seq<char>) -> Seq<char> {
    "\n Step "@ + decimal(index + 1) + "/"@ + decimal(total) + ": "@ + step
}

/// The line that tells that the step at `index` of `total` steps begins: the
/// steps are counted from one.
pub fn step_banner(index: usize, total: usize, step: &str) -> (r: String)
    requires
        index < total,
    ensures
        r@ == banner_text(index as nat, total as nat, step@),
{
    let mut out = "\n Step ".to_owned();
    out.append(decimal_text((index + 1) as u64).as_str());
    out.append("/");
    out.append(decimal_text(total as u64).as_str());
    out.append(": ");
    out.append(step);
    out
}

/// The line that tells that the step at `index` is resolved.
pub fn step_completed(index: usize) -> (r: String)
    requires
        index < usize::MAX,
    ensures
        r@ == "Step "@ + decimal((index + 1) as nat) + " completed"@,
{
    let mut out = join2("Step ", decimal_text((index + 1) as u64).as_str());
    out.append(" completed");
    out
}

/// The line that tells that the run is over.
pub fn run_completed() -> (r: String)
    ensures
        r@ == "\n Execution completed successfully!"@,
{
    "\n Execution completed successfully!".to_owned()
}

} // verus!
