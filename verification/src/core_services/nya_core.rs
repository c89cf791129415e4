//! The core service: the log, and a handler that tries the runtime out.
use vstd::prelude::*;
use crate::codec::{compact_form, to_string};
use crate::core_services::nya_base::{base_steps, BaseStep, NyaBase};
use crate::json::JsonView;
use crate::kernel::context::{value_at, NyaContext};
use crate::kernel::payload::{is_narrowing_error, narrowed, Get, Payload, PayloadError};
use crate::kernel::service::{Registration, Service, ServiceRegister};
use crate::text::join2;

verus! {

/// The core service.
pub struct NyaCore;

/// The handlers of the services that every runtime starts with.
#[derive(Debug, Clone, Copy, PartialEq, Eq, Structural)]
pub enum CoreHandler {
    /// Tries the runtime out; bound to `test`.
    Test,
    /// Writes a line of the log; bound to `log`.
    Log,
    /// A step of the cluster's build or destroy.
    Base(BaseStep),
}

/// The event that carries the lines of the log.
pub const LOG_EVENT: &'static str = "log";

/// The line that the log handler writes for a payload: the payload must hold
/// a string. A payload that is empty or holds something else gives the error
/// of the narrowing, which the handler keeps to itself.
pub fn log(payload: &Payload) -> (r: Result<String, PayloadError>)
    ensures
        match narrowed::<String>(payload.content()) {
            Ok(text) => r matches Ok(line) && line@ == "Value from log: "@ + text@,
            Err(_) => r matches Err(error) && is_narrowing_error::<String>(payload.content(), error),
        },
{
    match payload.get::<String>() {
        Ok(text) => Ok(join2("Value from log: ", text.as_str())),
        Err(error) => Err(error),
    }
}

/// What the trial handler does: two lines to print and a message to emit on
/// the log event.
pub struct Trial {
    pub payload_line: String,
    pub context_line: String,
    pub log_message: String,
}

/// The text of a value as the trial handler prints it.
pub open spec fn shown(value: JsonView) -> Seq<char> {
    match compact_form(value) {
        Ok(text) => text,
        Err(_) => Seq::empty(),
    }
}

/// The trial handler: reads the key `test` of the context and the string of
/// the payload, and sends `test_log` to the log.
pub fn test_nya_service(context: &NyaContext, payload: &Payload) -> (r: Result<
    Trial,
    PayloadError,
>)
    ensures
        match narrowed::<String>(payload.content()) {
            Ok(text) => r matches Ok(trial) && trial.payload_line@ == "Value from payload: "@
                + text@ && trial.context_line@ == "Value from context: "@ + shown(
                value_at(context@, "test"@),
            ) && trial.log_message@ == "test_log"@,
            Err(_) => r matches Err(error) && is_narrowing_error::<String>(payload.content(), error),
        },
{
    let stored = context.get("test");
    match payload.get::<String>() {
        Ok(text) => {
            let written = match to_string(&stored) {
                Ok(t) => t,
                Err(_) => String::new(),
            };
            Ok(
                Trial {
                    payload_line: join2("Value from payload: ", text.as_str()),
                    context_line: join2("Value from context: ", written.as_str()),
                    log_message: "test_log".to_owned(),
                },
            )
        },
        Err(error) => Err(error),
    }
}

/// Whether the registrations are the bindings of [`NyaCore`]: the trial
/// handler on `test`, then the log handler on `log`.
pub open spec fn are_core_bindings(r: Seq<Registration<CoreHandler>>) -> bool {
    &&& r.len() == 2
    &&& r[0].event@ == "test"@ && r[0].handler == CoreHandler::Test
    &&& r[1].event@ == LOG_EVENT@ && r[1].handler == CoreHandler::Log
}

impl NyaCore {
    /// The name of the service.
    pub fn name(&self) -> (r: String)
        ensures
            r@ == "NyaCore"@,
    {
        "NyaCore".to_owned()
    }

    /// The bindings of the service: the trial handler on `test`, the log
    /// handler on `log`.
    pub fn register(&self) -> (r: ServiceRegister<CoreHandler>)
        ensures
            are_core_bindings(r@),
    {
        let mut r: Vec<Registration<CoreHandler>> = Vec::new();
        r.push(Registration { event: "test".to_owned(), handler: CoreHandler::Test });
        r.push(Registration { event: LOG_EVENT.to_owned(), handler: CoreHandler::Log });
        r
    }
}

impl Service for NyaCore {
    type Handler = CoreHandler;

    fn name(&self) -> (r: String)
        ensures
            r@ == "NyaCore"@,
    {
        NyaCore::name(self)
    }

    fn register(&self) -> (r: ServiceRegister<CoreHandler>)
        ensures
            are_core_bindings(r@),
    {
        NyaCore::register(self)
    }
}

/// Whether the registrations are those of the services that every runtime
/// starts with: those of [`NyaCore`], then those of [`NyaBase`], each step
/// bound to its event.
pub open spec fn are_core_services(r: Seq<Registration<CoreHandler>>) -> bool {
    &&& r.len() == 2 + base_steps().len()
    &&& r[0].event@ == "test"@ && r[0].handler == CoreHandler::Test
    &&& r[1].event@ == LOG_EVENT@ && r[1].handler == CoreHandler::Log
    &&& forall|i: int|
        0 <= i < base_steps().len() ==> (#[trigger] r[2 + i]).handler == CoreHandler::Base(
            base_steps()[i],
        ) && r[2 + i].event@ == base_steps()[i].event()
}

/// The registrations of the services that every runtime starts with.
///
/// [`NyaBase`] is among them: the schemas of the base commands name its
/// events, and with the core service alone those commands would run their
/// steps without a single handler.
pub fn get_core_services() -> (r: Vec<Registration<CoreHandler>>)
    ensures
        are_core_services(r@),
{
    let mut r = NyaCore.register();
    let base = NyaBase.register();
    let mut i: usize = 0;
    while i < base.len()
        invariant
            i <= base.len(),
            base@.len() == base_steps().len(),
            forall|k: int|
                0 <= k < base_steps().len() ==> (#[trigger] base@[k]).handler == base_steps()[k]
                    && base@[k].event@ == base_steps()[k].event(),
            r@.len() == 2 + i,
            r@[0].event@ == "test"@ && r@[0].handler == CoreHandler::Test,
            r@[1].event@ == LOG_EVENT@ && r@[1].handler == CoreHandler::Log,
            forall|k: int|
                0 <= k < i ==> (#[trigger] r@[2 + k]).handler == CoreHandler::Base(base_steps()[k])
                    && r@[2 + k].event@ == base_steps()[k].event(),
        decreases base.len() - i,
    {
        let ghost before = r@;
        assert(base@[i as int].handler == base_steps()[i as int]);
        r.push(
            Registration { event: base[i].event.clone(), handler: CoreHandler::Base(base[i].handler) },
        );
        assert forall|k: int| 0 <= k < i + 1 implies (#[trigger] r@[2 + k]).handler
            == CoreHandler::Base(base_steps()[k]) && r@[2 + k].event@ == base_steps()[k].event() by {
            if k < i {
                assert(r@[2 + k] == before[2 + k]);
            }
        }
        i = i + 1;
    }
    r
}

} // verus!
