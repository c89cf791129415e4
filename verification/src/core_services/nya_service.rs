//! A service of one handler that reads the context.
use vstd::prelude::*;
use crate::json::JsonView;
use crate::kernel::context::{value_at, NyaContext};
use crate::kernel::service::{Registration, Service, ServiceRegister};
use crate::text::join2;

verus! {

/// The service.
pub struct NyaService;

/// The handler of [`NyaService`].
#[derive(Debug, Clone, Copy, PartialEq, Eq, Structural)]
pub struct ReadTest;

/// The line that the handler prints: the string stored under `test1`. `None`
/// where the context holds no string there.
pub fn test_nya_service(ctx: &NyaContext) -> (r: Option<String>)
    ensures
        match value_at(ctx@, "test1"@) {
            JsonView::String(text) => r matches Some(line) && line@ == "Value from ctx: "@ + text,
            _ => r is None,
        },
{
    let stored = ctx.get("test1");
    match stored.as_str() {
        Some(text) => Some(join2("Value from ctx: ", text)),
        None => None,
    }
}

/// Whether the registrations are the bindings of [`NyaService`]: its one
/// handler on `test`.
pub open spec fn are_service_bindings(r: Seq<Registration<ReadTest>>) -> bool {
    &&& r.len() == 1
    &&& r[0].event@ == "test"@ && r[0].handler == ReadTest
}

impl NyaService {
    /// The name of the service.
    pub fn name(&self) -> (r: String)
        ensures
            r@ == "NyaService"@,
    {
        "NyaService".to_owned()
    }

    /// The bindings of the service: its handler on `test`.
    pub fn register(&self) -> (r: ServiceRegister<ReadTest>)
        ensures
            are_service_bindings(r@),
    {
        let mut r: Vec<Registration<ReadTest>> = Vec::new();
        r.push(Registration { event: "test".to_owned(), handler: ReadTest });
        r
    }
}

impl Service for NyaService {
    type Handler = ReadTest;

    fn name(&self) -> (r: String)
        ensures
            r@ == "NyaService"@,
    {
        NyaService::name(self)
    }

    fn register(&self) -> (r: ServiceRegister<ReadTest>)
        ensures
            are_service_bindings(r@),
    {
        NyaService::register(self)
    }
}

} // verus!
