//! The service that builds and destroys the cluster: one handler for each
//! step, each of which runs one playbook of the provisioning tool.
use vstd::prelude::*;
use crate::core_services::executor::{
    node_vars, setup_temp_inventory, staging_of, vars_json, vars_text, merge_complaint,
    merged_vars, Staging, TOKEN_KEY,
};
use crate::embedded::{
    BUILD_CONTROL_PLANE, BUILD_NODES, DESTROY_CONTROL_PLANE, DESTROY_NODES, POST_BUILD,
    VALIDATE_CLUSTER,
};
use crate::kernel::context::{value_at, NyaContext};
use crate::json::JsonView;
use crate::kernel::service::{Registration, Service, ServiceRegister};

verus! {

/// The service of the cluster's build and destroy steps.
pub struct NyaBase;

/// The handlers of [`NyaBase`].
#[derive(Debug, Clone, Copy, PartialEq, Eq, Structural)]
pub enum BaseStep {
    BuildControlPlane,
    BuildNodes,
    RunPostBuild,
    ValidateCluster,
    DestroyControlPlane,
    DestroyNodes,
}

impl BaseStep {
    /// The event that the handler is bound to.
    pub open spec fn event(self) -> Seq<char> {
        match self {
            BaseStep::BuildControlPlane => "onBuildMainServer"@,
            BaseStep::BuildNodes => "onBuildNodeServers"@,
            BaseStep::RunPostBuild => "onRunPostBuild"@,
            BaseStep::ValidateCluster => "onValidateCluster"@,
            BaseStep::DestroyControlPlane => "onDestroyControlPlane"@,
            BaseStep::DestroyNodes => "onDestroyNodes"@,
        }
    }

    /// What the handler tells the log when it starts.
    pub open spec fn announce(self) -> Seq<char> {
        match self {
            BaseStep::BuildControlPlane => "Building control plane..."@,
            BaseStep::BuildNodes => "Building nodes..."@,
            BaseStep::RunPostBuild => "Running post build..."@,
            BaseStep::ValidateCluster => "Validating cluster..."@,
            BaseStep::DestroyControlPlane => "Destroying control plane..."@,
            BaseStep::DestroyNodes => "Destroying nodes..."@,
        }
    }

    /// The context key of the inventory that the handler stages.
    pub open spec fn inventory_key(self) -> Seq<char> {
        match self {
            BaseStep::BuildNodes => "nya.nodes"@,
            _ => "nya.control_plane"@,
        }
    }

    /// The context key of the variables that the handler hands on.
    pub open spec fn vars_key(self) -> Seq<char> {
        match self {
            BaseStep::BuildNodes => "nya.nodes.vars"@,
            _ => "nya.control_plane.vars"@,
        }
    }

    /// The playbook that the handler runs.
    pub open spec fn playbook(self) -> &'static str {
        match self {
            BaseStep::BuildControlPlane => BUILD_CONTROL_PLANE,
            BaseStep::BuildNodes => BUILD_NODES,
            BaseStep::RunPostBuild => POST_BUILD,
            BaseStep::ValidateCluster => VALIDATE_CLUSTER,
            BaseStep::DestroyControlPlane => DESTROY_CONTROL_PLANE,
            BaseStep::DestroyNodes => DESTROY_NODES,
        }
    }

    /// What the handler tells the log when its playbook has run.
    pub open spec fn done(self) -> Seq<char> {
        match self {
            BaseStep::BuildControlPlane => "Control plane built successfully."@,
            BaseStep::BuildNodes => "Nodes built successfully."@,
            BaseStep::RunPostBuild => "Post build ran successfully."@,
            BaseStep::ValidateCluster => "Validated cluster successfully."@,
            BaseStep::DestroyControlPlane => "Destroyed control plane successfully."@,
            BaseStep::DestroyNodes => "Destroyed nodes successfully."@,
        }
    }

    /// The variables that the handler hands to the playbook, as one JSON
    /// text. The handler that builds the nodes adds the join token.
    pub open spec fn vars(self, context: Map<Seq<char>, JsonView>) -> Seq<char> {
        match self {
            BaseStep::BuildNodes => vars_text(
                merged_vars(value_at(context, self.vars_key()), value_at(context, TOKEN_KEY@)),
            ),
            _ => vars_text(value_at(context, self.vars_key())),
        }
    }

    /// What the handler complains of before it starts the playbook.
    pub open spec fn complaint(self, context: Map<Seq<char>, JsonView>) -> Option<Seq<char>> {
        match self {
            BaseStep::BuildNodes => merge_complaint(
                value_at(context, self.vars_key()),
                value_at(context, TOKEN_KEY@),
            ),
            _ => None,
        }
    }
}

/// What a handler has decided before the provisioning tool starts.
pub struct Preparation {
    /// The message for the log that the step has begun.
    pub announce: String,
    /// What is to be done about the inventory.
    pub staging: Staging,
    /// The complaint for the log, where the variables are not as expected.
    pub complaint: Option<String>,
    /// The variables for the playbook, as compact JSON text.
    pub vars: String,
    /// The content of the playbook to run.
    pub playbook: &'static str,
    /// The message for the log once the playbook has run.
    pub done: String,
}

impl Preparation {
    /// Whether the preparation is the one that `step` makes in `context`.
    pub open spec fn is_for(
        self,
        step: BaseStep,
        context: Map<Seq<char>, JsonView>,
        invocation: nat,
    ) -> bool {
        &&& self.announce@ == step.announce()
        &&& self.staging@ == staging_of(context, step.inventory_key(), invocation)
        &&& match step.complaint(context) {
            Some(text) => self.complaint matches Some(log) && log@ == text,
            None => self.complaint is None,
        }
        &&& self.vars@ == step.vars(context)
        &&& self.playbook == step.playbook()
        &&& self.done@ == step.done()
    }
}

/// Prepares the build of the control plane.
pub fn build_control_plane(context: &NyaContext, invocation: u64) -> (r: Preparation)
    ensures
        r.is_for(BaseStep::BuildControlPlane, context@, invocation as nat),
{
    Preparation {
        announce: "Building control plane...".to_owned(),
        staging: setup_temp_inventory(context, "nya.control_plane", invocation),
        complaint: None,
        vars: vars_json(context, "nya.control_plane.vars"),
        playbook: BUILD_CONTROL_PLANE,
        done: "Control plane built successfully.".to_owned(),
    }
}

/// Prepares the post build run on the control plane.
pub fn run_post_build(context: &NyaContext, invocation: u64) -> (r: Preparation)
    ensures
        r.is_for(BaseStep::RunPostBuild, context@, invocation as nat),
{
    Preparation {
        announce: "Running post build...".to_owned(),
        staging: setup_temp_inventory(context, "nya.control_plane", invocation),
        complaint: None,
        vars: vars_json(context, "nya.control_plane.vars"),
        playbook: POST_BUILD,
        done: "Post build ran successfully.".to_owned(),
    }
}

/// Prepares the build of the nodes: the join token that the build of the
/// control plane has stored goes into the variables.
pub fn build_nodes(context: &NyaContext, invocation: u64) -> (r: Preparation)
    ensures
        r.is_for(BaseStep::BuildNodes, context@, invocation as nat),
{
    let staging = setup_temp_inventory(context, "nya.nodes", invocation);
    let token = context.get(TOKEN_KEY);
    let vars = context.get("nya.nodes.vars");
    let merged = node_vars(vars, token);
    Preparation {
        announce: "Building nodes...".to_owned(),
        staging,
        complaint: merged.log,
        vars: merged.json,
        playbook: BUILD_NODES,
        done: "Nodes built successfully.".to_owned(),
    }
}

/// Prepares the validation of the cluster.
pub fn validate_cluster(context: &NyaContext, invocation: u64) -> (r: Preparation)
    ensures
        r.is_for(BaseStep::ValidateCluster, context@, invocation as nat),
{
    Preparation {
        announce: "Validating cluster...".to_owned(),
        staging: setup_temp_inventory(context, "nya.control_plane", invocation),
        complaint: None,
        vars: vars_json(context, "nya.control_plane.vars"),
        playbook: VALIDATE_CLUSTER,
        done: "Validated cluster successfully.".to_owned(),
    }
}

/// Prepares the removal of the control plane.
pub fn destroy_control_plane(context: &NyaContext, invocation: u64) -> (r: Preparation)
    ensures
        r.is_for(BaseStep::DestroyControlPlane, context@, invocation as nat),
{
    Preparation {
        announce: "Destroying control plane...".to_owned(),
        staging: setup_temp_inventory(context, "nya.control_plane", invocation),
        complaint: None,
        vars: vars_json(context, "nya.control_plane.vars"),
        playbook: DESTROY_CONTROL_PLANE,
        done: "Destroyed control plane successfully.".to_owned(),
    }
}

/// Prepares the removal of the nodes.
pub fn destroy_nodes(context: &NyaContext, invocation: u64) -> (r: Preparation)
    ensures
        r.is_for(BaseStep::DestroyNodes, context@, invocation as nat),
{
    Preparation {
        announce: "Destroying nodes...".to_owned(),
        staging: setup_temp_inventory(context, "nya.control_plane", invocation),
        complaint: None,
        vars: vars_json(context, "nya.control_plane.vars"),
        playbook: DESTROY_NODES,
        done: "Destroyed nodes successfully.".to_owned(),
    }
}

/// What the handler `step` decides in `context` before the provisioning tool
/// starts, for the invocation with the given number.
pub fn prepare(step: BaseStep, context: &NyaContext, invocation: u64) -> (r: Preparation)
    ensures
        r.is_for(step, context@, invocation as nat),
{
    match step {
        BaseStep::BuildControlPlane => build_control_plane(context, invocation),
        BaseStep::BuildNodes => build_nodes(context, invocation),
        BaseStep::RunPostBuild => run_post_build(context, invocation),
        BaseStep::ValidateCluster => validate_cluster(context, invocation),
        BaseStep::DestroyControlPlane => destroy_control_plane(context, invocation),
        BaseStep::DestroyNodes => destroy_nodes(context, invocation),
    }
}

/// The bindings of [`NyaBase`], as a specification.
pub open spec fn base_steps() -> Seq<BaseStep> {
    seq![
        BaseStep::BuildControlPlane,
        BaseStep::BuildNodes,
        BaseStep::RunPostBuild,
        BaseStep::ValidateCluster,
        BaseStep::DestroyControlPlane,
        BaseStep::DestroyNodes,
    ]
}

/// Whether the registrations bind each of `steps`, in order, to the event of
/// the step.
pub open spec fn binds_each(registrations: Seq<Registration<BaseStep>>, steps: Seq<BaseStep>) -> bool {
    &&& registrations.len() == steps.len()
    &&& forall|i: int|
        0 <= i < steps.len() ==> (#[trigger] registrations[i]).handler == steps[i]
            && registrations[i].event@ == steps[i].event()
}

impl NyaBase {
    /// The name of the service.
    pub fn name(&self) -> (r: String)
        ensures
            r@ == "NyaBase"@,
    {
        "NyaBase".to_owned()
    }

    /// The bindings of the service: each step, bound to its event.
    pub fn register(&self) -> (r: ServiceRegister<BaseStep>)
        ensures
            binds_each(r@, base_steps()),
    {
        let mut r: Vec<Registration<BaseStep>> = Vec::new();
        r.push(
            Registration {
                event: "onBuildMainServer".to_owned(),
                handler: BaseStep::BuildControlPlane,
            },
        );
        r.push(Registration { event: "onBuildNodeServers".to_owned(), handler: BaseStep::BuildNodes });
        r.push(Registration { event: "onRunPostBuild".to_owned(), handler: BaseStep::RunPostBuild });
        r.push(
            Registration { event: "onValidateCluster".to_owned(), handler: BaseStep::ValidateCluster },
        );
        r.push(
            Registration {
                event: "onDestroyControlPlane".to_owned(),
                handler: BaseStep::DestroyControlPlane,
            },
        );
        r.push(Registration { event: "onDestroyNodes".to_owned(), handler: BaseStep::DestroyNodes });
        r
    }
}

impl Service for NyaBase {
    type Handler = BaseStep;

    fn name(&self) -> (r: String)
        ensures
            r@ == "NyaBase"@,
    {
        NyaBase::name(self)
    }

    fn register(&self) -> (r: ServiceRegister<BaseStep>)
        ensures
            binds_each(r@, base_steps()),
    {
        NyaBase::register(self)
    }
}

} // verus!
