//! What a runtime is put together from: the services, the schemas and the
//! context.
use vstd::prelude::*;
use crate::core_services::nya_service::{are_service_bindings, NyaService, ReadTest};
use crate::kernel::context::{context_of, get_context, NyaContext};
use crate::kernel::schema::{
    embedded_files, embedded_schemas, file_views, schema_steps, NyaSchema, SchemaFile,
};
use crate::kernel::service::Registration;
use crate::text::texts;

verus! {

/// The documents of schemas that a runtime looks commands up in.
pub struct SchemaRegistry {
    files: Vec<SchemaFile>,
}

impl SchemaRegistry {
    /// The documents of the registry, in the order in which they are read.
    pub closed spec fn files(&self) -> Seq<SchemaFile> {
        self.files@
    }

    /// The registry of the schemas that are compiled into the library.
    pub fn new() -> (r: SchemaRegistry)
        ensures
            file_views(r.files()) == embedded_files(),
    {
        SchemaRegistry { files: embedded_schemas() }
    }

    /// The schema of the command `cmd`, or the error that says why there is
    /// none.
    pub fn get_schema(&self, cmd: &str) -> (r: Result<NyaSchema, String>)
        ensures
            match schema_steps(file_views(self.files()), cmd@) {
                Ok(steps) => r matches Ok(schema) && texts(schema.steps@) == steps,
                Err(message) => r matches Err(e) && e@ == message,
            },
    {
        NyaSchema::from_files(&self.files, cmd)
    }
}

/// The registrations of the services that are registered by default: those
/// of [`NyaService`].
pub fn register_services() -> (r: Vec<Registration<ReadTest>>)
    ensures
        are_service_bindings(r@),
{
    NyaService.register()
}

/// The registry of the schemas that are compiled into the library.
pub fn register_schemas() -> (r: SchemaRegistry)
    ensures
        file_views(r.files()) == embedded_files(),
{
    SchemaRegistry::new()
}

/// The context of a run, from the content of the configuration file.
pub fn register_context(content: &str) -> (r: Result<NyaContext, String>)
    ensures
        match context_of(content@) {
            Ok(context) => r matches Ok(c) && c@ == context,
            Err(message) => r matches Err(e) && e@ == message,
        },
{
    get_context(content)
}

} // verus!
