//! The runtime: one execution context, one event bus and the schema of one
//! command, and the run of that schema step by step.
use vstd::prelude::*;
use vstd::pervasive::unreached;
use crate::core_services::executor::{on_stdout_line, TOKEN_KEY};
use crate::json::{Json, JsonView};
use crate::kernel::context::{context_of, get_context, value_at, NyaContext};
use crate::kernel::event_bus::{all_finished, Emission};
use crate::kernel::planner::{advance, asks, begin, Planner, RunAction, RunState};
use crate::kernel::schema::{
    embedded_files, embedded_schemas, file_views, find_schema, schema_steps, NyaSchema, SchemaFile,
    SchemaFileView,
};
use crate::kernel::service::{build_nya_bus, registered_for, Registration};
use crate::text::texts;

verus! {

/// The orchestrator of one run.
pub struct Nya<H> {
    context: NyaContext,
    planner: Planner<H>,
}

/// Why a runtime could not be built. Either way nothing has been started.
#[derive(Debug, PartialEq)]
pub enum BuildError {
    /// The configuration was refused; the text says why.
    Context(String),
    /// The schemas name no such command, or one of their documents was
    /// refused; the text says which.
    Schema(String),
}

/// The mathematical model of a [`BuildError`].
pub enum BuildFailure {
    Context(Seq<char>),
    Schema(Seq<char>),
}

impl View for BuildError {
    type V = BuildFailure;

    open spec fn view(&self) -> BuildFailure {
        match self {
            BuildError::Context(message) => BuildFailure::Context(message@),
            BuildError::Schema(message) => BuildFailure::Schema(message@),
        }
    }
}

impl BuildError {
    /// The text of the error.
    pub fn message(&self) -> (r: &str)
        ensures
            r@ == match self@ {
                BuildFailure::Context(message) => message,
                BuildFailure::Schema(message) => message,
            },
    {
        match self {
            BuildError::Context(message) => message.as_str(),
            BuildError::Schema(message) => message.as_str(),
        }
    }
}

/// What building a runtime gives, as a specification: the context of the
/// configuration and the steps of the command, or the fatal error. The
/// configuration is looked at first.
pub open spec fn built(files: Seq<SchemaFileView>, cmd: Seq<char>, config: Seq<char>) -> Result<
    (Map<Seq<char>, JsonView>, Seq<Seq<char>>),
    BuildFailure,
> {
    match context_of(config) {
        Err(message) => Err(BuildFailure::Context(message)),
        Ok(context) => match schema_steps(files, cmd) {
            Err(message) => Err(BuildFailure::Schema(message)),
            Ok(steps) => Ok((context, steps)),
        },
    }
}

impl<H> Nya<H> {
    /// The execution context.
    pub closed spec fn context(&self) -> Map<Seq<char>, JsonView> {
        self.context@
    }

    /// The steps of the schema.
    pub closed spec fn steps(&self) -> Seq<Seq<char>> {
        self.planner.steps()
    }

    /// Where the run stands.
    pub closed spec fn state(&self) -> RunState {
        self.planner.state()
    }

    /// The handlers bound to `event`.
    pub closed spec fn handlers_of(&self, event: Seq<char>) -> Seq<H> {
        self.planner.bus().handlers_of(event)
    }

    /// Whether `emission` is the resolved emission of the running step.
    pub open spec fn settles(&self, emission: &Emission) -> bool {
        &&& self.state() matches RunState::Running(i)
        &&& i < self.steps().len()
        &&& emission.step() == self.steps()[i as int]
        &&& all_finished(emission.flags())
    }

    /// Whether the runtime is the one that is built from these parts, with
    /// its run not yet begun.
    pub open spec fn is_built_from(
        &self,
        context: Map<Seq<char>, JsonView>,
        steps: Seq<Seq<char>>,
        reg: Seq<Registration<H>>,
    ) -> bool {
        &&& self.context() == context
        &&& self.steps() == steps
        &&& self.state() == RunState::Idle
        &&& forall|event: Seq<char>| #[trigger] self.handlers_of(event) == registered_for(reg, event)
    }

    /// Puts the runtime together, or says why it cannot be.
    fn assemble(files: &Vec<SchemaFile>, cmd: &str, config: &str, reg: Vec<Registration<H>>) -> (r:
        Result<Nya<H>, BuildError>)
        ensures
            match built(file_views(files@), cmd@, config@) {
                Ok((context, steps)) => r matches Ok(nya) && nya.is_built_from(context, steps, reg@),
                Err(failure) => r matches Err(e) && e@ == failure,
            },
    {
        let bus = build_nya_bus(reg);
        match get_context(config) {
            Err(message) => Err(BuildError::Context(message)),
            Ok(context) => match find_schema(files, cmd) {
                Err(message) => Err(BuildError::Schema(message)),
                Ok(steps) => Ok(Nya { context, planner: Planner::new(bus, NyaSchema { steps }) }),
            },
        }
    }

    /// Whether a runtime of the command `cmd` can be built from the content
    /// of the configuration file and the schemas in `files`: `Err` holds the
    /// fatal error that stands in the way.
    pub fn check_with(files: &Vec<SchemaFile>, cmd: &str, config: &str) -> (r: Result<
        (),
        BuildError,
    >)
        ensures
            match built(file_views(files@), cmd@, config@) {
                Ok(_) => r is Ok,
                Err(failure) => r matches Err(e) && e@ == failure,
            },
    {
        match get_context(config) {
            Err(message) => Err(BuildError::Context(message)),
            Ok(_) => match find_schema(files, cmd) {
                Err(message) => Err(BuildError::Schema(message)),
                Ok(_) => Ok(()),
            },
        }
    }

    /// Whether a runtime of the command `cmd` can be built from the content
    /// of the configuration file, with the schemas that are compiled into
    /// the library.
    pub fn check(cmd: &str, config: &str) -> (r: Result<(), BuildError>)
        ensures
            match built(embedded_files(), cmd@, config@) {
                Ok(_) => r is Ok,
                Err(failure) => r matches Err(e) && e@ == failure,
            },
    {
        let files = embedded_schemas();
        Nya::<H>::check_with(&files, cmd, config)
    }

    /// Builds the runtime of the command `cmd` from the content of the
    /// configuration file, the schemas in `files` and the registrations of
    /// the services. The configuration must be accepted and the schemas must
    /// name the command: a runtime is never built for anything else.
    pub fn build_with(
        files: &Vec<SchemaFile>,
        cmd: &str,
        config: &str,
        reg: Vec<Registration<H>>,
    ) -> (nya: Nya<H>)
        requires
            built(file_views(files@), cmd@, config@) is Ok,
        ensures
            nya.is_built_from(
                built(file_views(files@), cmd@, config@)->Ok_0.0,
                built(file_views(files@), cmd@, config@)->Ok_0.1,
                reg@,
            ),
    {
        match Nya::assemble(files, cmd, config, reg) {
            Ok(nya) => nya,
            Err(_) => unreached(),
        }
    }

    /// Builds the runtime of the command `cmd` from the content of the
    /// configuration file and the registrations of the services, with the
    /// schemas that are compiled into the library. The configuration must be
    /// accepted and the schemas must name the command.
    pub fn build(cmd: &str, config: &str, reg: Vec<Registration<H>>) -> (nya: Nya<H>)
        requires
            built(embedded_files(), cmd@, config@) is Ok,
        ensures
            nya.is_built_from(
                built(embedded_files(), cmd@, config@)->Ok_0.0,
                built(embedded_files(), cmd@, config@)->Ok_0.1,
                reg@,
            ),
    {
        let files = embedded_schemas();
        Nya::build_with(&files, cmd, config, reg)
    }

    /// Builds the runtime as [`Nya::build_with`] does where it can be built,
    /// and hands back the fatal error where it cannot: a configuration that
    /// is refused, or else a command that the schemas do not name.
    pub fn try_build_with(
        files: &Vec<SchemaFile>,
        cmd: &str,
        config: &str,
        reg: Vec<Registration<H>>,
    ) -> (r: Result<Nya<H>, BuildError>)
        ensures
            match built(file_views(files@), cmd@, config@) {
                Ok((context, steps)) => r matches Ok(nya) && nya.is_built_from(context, steps, reg@),
                Err(failure) => r matches Err(e) && e@ == failure,
            },
    {
        match Nya::<H>::check_with(files, cmd, config) {
            Ok(_) => Ok(Nya::build_with(files, cmd, config, reg)),
            Err(error) => Err(error),
        }
    }

    /// Builds the runtime as [`Nya::build`] does where it can be built, and
    /// hands back the fatal error where it cannot.
    pub fn try_build(cmd: &str, config: &str, reg: Vec<Registration<H>>) -> (r: Result<
        Nya<H>,
        BuildError,
    >)
        ensures
            match built(embedded_files(), cmd@, config@) {
                Ok((context, steps)) => r matches Ok(nya) && nya.is_built_from(context, steps, reg@),
                Err(failure) => r matches Err(e) && e@ == failure,
            },
    {
        match Nya::<H>::check(cmd, config) {
            Ok(_) => Ok(Nya::build(cmd, config, reg)),
            Err(error) => Err(error),
        }
    }

    /// The value stored under `key`, or null where the key is absent.
    pub fn get(&self, key: &str) -> (r: Json)
        ensures
            r@ == value_at(self.context(), key@),
    {
        self.context.get(key)
    }

    /// Stores `value` under `key`. Nothing else changes.
    pub fn set(&mut self, key: &str, value: Json)
        ensures
            final(self).context() == old(self).context().insert(key@, value@),
            final(self).steps() == old(self).steps(),
            final(self).state() == old(self).state(),
            forall|event: Seq<char>|
                #[trigger] final(self).handlers_of(event) == old(self).handlers_of(event),
    {
        self.context.set(key, value);
    }

    /// Stores the outcome of converting a value for `key`: a value that was
    /// converted is stored, and one that could not be converted is dropped
    /// without a word, with the context left as it was.
    pub fn set_converted(&mut self, key: &str, converted: Option<Json>)
        ensures
            final(self).context() == match converted {
                Some(value) => old(self).context().insert(key@, value@),
                None => old(self).context(),
            },
            final(self).steps() == old(self).steps(),
            final(self).state() == old(self).state(),
            forall|event: Seq<char>|
                #[trigger] final(self).handlers_of(event) == old(self).handlers_of(event),
    {
        self.context.set_converted(key, converted);
    }

    /// Takes in one line of the standard output of the provisioning tool: a
    /// token that the line announces is stored in the context. The result
    /// is the text for the log.
    pub fn on_stdout_line(&mut self, captured: Option<String>, line: &str) -> (log: String)
        ensures
            log@ == line@,
            final(self).context() == match captured {
                Some(token) => old(self).context().insert(TOKEN_KEY@, JsonView::String(token@)),
                None => old(self).context(),
            },
            final(self).steps() == old(self).steps(),
            final(self).state() == old(self).state(),
            forall|event: Seq<char>|
                #[trigger] final(self).handlers_of(event) == old(self).handlers_of(event),
    {
        on_stdout_line(&mut self.context, captured, line)
    }

    /// The handlers that an emission of `event` runs: those bound to the
    /// event, and none where the event has no handler. The runtime is left
    /// as it was.
    pub fn trigger(&self, event: &str) -> (scheduled: Vec<&H>)
        ensures
            scheduled@.len() == self.handlers_of(event@).len(),
            forall|i: int|
                0 <= i < scheduled@.len() ==> *scheduled@[i] == self.handlers_of(event@)[i],
    {
        self.planner.emit(event)
    }

    /// Begins the run: the first step of the schema is to be emitted, or the
    /// run is over at once where the schema has no step.
    pub fn run(&mut self) -> (r: RunAction)
        ensures
            final(self).context() == old(self).context(),
            final(self).steps() == old(self).steps(),
            forall|event: Seq<char>|
                #[trigger] final(self).handlers_of(event) == old(self).handlers_of(event),
            old(self).state() is Idle ==> final(self).state() == begin(old(self).steps().len())
                && asks(r, final(self).state(), final(self).steps()),
            !(old(self).state() is Idle) ==> final(self).state() == old(self).state() && r is Wait,
    {
        self.planner.execute()
    }

    /// Takes in that the caller has come back with the emission of the
    /// running step; see [`Planner::step_done`].
    pub fn step_done(&mut self, emission: &Emission) -> (r: RunAction)
        ensures
            final(self).context() == old(self).context(),
            final(self).steps() == old(self).steps(),
            forall|event: Seq<char>|
                #[trigger] final(self).handlers_of(event) == old(self).handlers_of(event),
            final(self).state() == advance(
                old(self).state(),
                old(self).steps().len(),
                old(self).settles(emission),
            ),
            old(self).settles(emission) ==> asks(r, final(self).state(), final(self).steps()),
            !old(self).settles(emission) ==> r is Wait,
    {
        self.planner.step_done(emission)
    }

    /// The execution context, to read.
    pub fn context_ref(&self) -> (r: &NyaContext)
        ensures
            r@ == self.context(),
    {
        &self.context
    }

    /// Where the run stands.
    pub fn current(&self) -> (r: RunState)
        ensures
            r == self.state(),
    {
        self.planner.current()
    }

    /// The schema of the run.
    pub fn schema(&self) -> (r: &NyaSchema)
        ensures
            texts(r.steps@) == self.steps(),
    {
        self.planner.schema()
    }
}

} // verus!
