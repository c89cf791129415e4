//! The two commands on the base cluster: each builds the runtime of its
//! schema from the configuration and the core services.
use vstd::prelude::*;
use crate::core_services::nya_core::{are_core_services, get_core_services, CoreHandler};
use crate::kernel::schema::embedded_files;
use crate::kernel::service::Registration;
use crate::runtime::nya::{built, BuildError, Nya};

verus! {

/// Whether `nya` is the runtime of the command `cmd` for the content of the
/// configuration file: the runtime with the core services registered and its
/// run not yet begun.
pub open spec fn is_runtime_of(nya: Nya<CoreHandler>, cmd: Seq<char>, context: Seq<char>) -> bool {
    built(embedded_files(), cmd, context) matches Ok(parts) && exists|
        reg: Seq<Registration<CoreHandler>>,
    |
        are_core_services(reg) && #[trigger] nya.is_built_from(parts.0, parts.1, reg)
}

/// Whether `r` is what trying to build the runtime of the command `cmd`
/// gives: the runtime, or the fatal error.
pub open spec fn is_outcome_of(
    r: Result<Nya<CoreHandler>, BuildError>,
    cmd: Seq<char>,
    context: Seq<char>,
) -> bool {
    match built(embedded_files(), cmd, context) {
        Ok(_) => r matches Ok(nya) && is_runtime_of(nya, cmd, context),
        Err(failure) => r matches Err(e) && e@ == failure,
    }
}

/// The runtime of the command `cmd`, with the core services registered.
fn runtime(cmd: &str, context: &str) -> (nya: Nya<CoreHandler>)
    requires
        built(embedded_files(), cmd@, context@) is Ok,
    ensures
        is_runtime_of(nya, cmd@, context@),
{
    let services = get_core_services();
    let ghost registered = services@;
    let nya = Nya::build(cmd, context, services);
    proof {
        let parts = built(embedded_files(), cmd@, context@)->Ok_0;
        assert(nya.is_built_from(parts.0, parts.1, registered));
    }
    nya
}

/// The runtime that builds the cluster, from the content of the
/// configuration file. The configuration must be accepted.
pub fn build(context: &str) -> (nya: Nya<CoreHandler>)
    requires
        built(embedded_files(), "base:build"@, context@) is Ok,
    ensures
        is_runtime_of(nya, "base:build"@, context@),
{
    runtime("base:build", context)
}

/// The runtime that destroys the cluster, from the content of the
/// configuration file. The configuration must be accepted.
pub fn destroy(context: &str) -> (nya: Nya<CoreHandler>)
    requires
        built(embedded_files(), "base:destroy"@, context@) is Ok,
    ensures
        is_runtime_of(nya, "base:destroy"@, context@),
{
    runtime("base:destroy", context)
}

/// The runtime that builds the cluster where it can be built, and the fatal
/// error where it cannot.
pub fn try_build(context: &str) -> (r: Result<Nya<CoreHandler>, BuildError>)
    ensures
        is_outcome_of(r, "base:build"@, context@),
{
    match Nya::<CoreHandler>::check("base:build", context) {
        Ok(_) => Ok(build(context)),
        Err(error) => Err(error),
    }
}

/// The runtime that destroys the cluster where it can be built, and the
/// fatal error where it cannot.
pub fn try_destroy(context: &str) -> (r: Result<Nya<CoreHandler>, BuildError>)
    ensures
        is_outcome_of(r, "base:destroy"@, context@),
{
    match Nya::<CoreHandler>::check("base:destroy", context) {
        Ok(_) => Ok(destroy(context)),
        Err(error) => Err(error),
    }
}

} // verus!
