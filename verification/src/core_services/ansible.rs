//! The service that drives the provisioning tool with playbooks that lie on
//! disk: it builds the control plane and the nodes.
use vstd::prelude::*;
use crate::core_services::executor::{
    compact_or_empty, setup_temp_inventory, staging_of, vars_json, vars_text, Staging,
};
use crate::json::{put, Json, JsonView};
use crate::kernel::context::{value_at, NyaContext};
use crate::kernel::service::{Registration, Service, ServiceRegister};
use crate::text::{join2, texts};

verus! {

/// The service.
pub struct Ansible;

/// The handlers of [`Ansible`].
#[derive(Debug, Clone, Copy, PartialEq, Eq, Structural)]
pub enum AnsibleStep {
    BuildControlPlane,
    BuildNodes,
}

/// The context key under which this service stores the join token.
pub const K3S_TOKEN: &'static str = "k3s_token";

/// The path of a playbook inside the directory of the service's assets.
pub open spec fn playbook_path(assets: Seq<char>, step: AnsibleStep) -> Seq<char> {
    assets + match step {
        AnsibleStep::BuildControlPlane => "/assets/playbooks/build_control_plane.yml"@,
        AnsibleStep::BuildNodes => "/assets/playbooks/build_nodes.yml"@,
    }
}

/// The path of the playbook of `step`, for the directory `assets`.
pub fn playbook_of(assets: &str, step: AnsibleStep) -> (r: String)
    ensures
        r@ == playbook_path(assets@, step),
{
    match step {
        AnsibleStep::BuildControlPlane => join2(assets, "/assets/playbooks/build_control_plane.yml"),
        AnsibleStep::BuildNodes => join2(assets, "/assets/playbooks/build_nodes.yml"),
    }
}

/// The variables of the nodes with the join token added, where the variables
/// are an object and the token is a string; otherwise the variables as they
/// are.
pub open spec fn with_token(vars: JsonView, token: JsonView) -> JsonView {
    match (vars, token) {
        (JsonView::Object(entries), JsonView::String(text)) => JsonView::Object(
            put(entries, "k3s_node_token"@, JsonView::String(text)),
        ),
        _ => vars,
    }
}

/// What a handler of this service has decided before the provisioning tool
/// starts.
pub struct AnsiblePreparation {
    pub announce: String,
    pub staging: Staging,
    pub vars: String,
}

/// Prepares the build of the control plane.
pub fn build_control_plane(context: &NyaContext, invocation: u64) -> (r: AnsiblePreparation)
    ensures
        r.announce@ == "Building control plane..."@,
        r.staging@ == staging_of(context@, "nya.control_plane"@, invocation as nat),
        r.vars@ == vars_text(value_at(context@, "nya.control_plane.vars"@)),
{
    AnsiblePreparation {
        announce: "Building control plane...".to_owned(),
        staging: setup_temp_inventory(context, "nya.control_plane", invocation),
        vars: vars_json(context, "nya.control_plane.vars"),
    }
}

/// Prepares the build of the nodes: the join token goes into the variables,
/// where there is one.
pub fn build_nodes(context: &NyaContext, invocation: u64) -> (r: AnsiblePreparation)
    ensures
        r.announce@ == "Building nodes..."@,
        r.staging@ == staging_of(context@, "nya.nodes"@, invocation as nat),
        r.vars@ == vars_text(
            with_token(value_at(context@, "nya.nodes.vars"@), value_at(context@, K3S_TOKEN@)),
        ),
{
    let staging = setup_temp_inventory(context, "nya.nodes", invocation);
    let token = context.get(K3S_TOKEN);
    let vars = context.get("nya.nodes.vars");
    let merged = if vars.is_object() {
        match token {
            Json::String(text) => vars.with_member("k3s_node_token".to_owned(), Json::String(text)),
            _ => vars,
        }
    } else {
        vars
    };
    AnsiblePreparation {
        announce: "Building nodes...".to_owned(),
        staging,
        vars: compact_or_empty(&merged),
    }
}

/// Takes in one line of the process's standard output: a line that announces
/// a token has the token stored under [`K3S_TOKEN`] and told to the log. The
/// result is what goes to the log, the line itself last.
pub fn on_stdout_line(context: &mut NyaContext, captured: Option<String>, line: &str) -> (logs:
    Vec<String>)
    ensures
        final(context)@ == match captured {
            Some(token) => old(context)@.insert(K3S_TOKEN@, JsonView::String(token@)),
            None => old(context)@,
        },
        texts(logs@) == match captured {
            Some(token) => seq!["Captured K3s token: "@ + token@, line@],
            None => seq![line@],
        },
{
    let mut logs: Vec<String> = Vec::new();
    match captured {
        Some(token) => {
            logs.push(join2("Captured K3s token: ", token.as_str()));
            context.set(K3S_TOKEN, Json::String(token));
        },
        None => {},
    }
    logs.push(line.to_owned());
    assert(texts(logs@) =~= match captured {
        Some(token) => seq!["Captured K3s token: "@ + token@, line@],
        None => seq![line@],
    });
    logs
}

/// Whether the registrations are the bindings of [`Ansible`]: the build of
/// the control plane on `onBuildMainServer`, then the build of the nodes on
/// `onBuildNodeServers`.
pub open spec fn are_ansible_bindings(r: Seq<Registration<AnsibleStep>>) -> bool {
    &&& r.len() == 2
    &&& r[0].event@ == "onBuildMainServer"@ && r[0].handler == AnsibleStep::BuildControlPlane
    &&& r[1].event@ == "onBuildNodeServers"@ && r[1].handler == AnsibleStep::BuildNodes
}

impl Ansible {
    /// The name of the service.
    pub fn name(&self) -> (r: String)
        ensures
            r@ == "Ansible"@,
    {
        "Ansible".to_owned()
    }

    /// The bindings of the service.
    pub fn register(&self) -> (r: ServiceRegister<AnsibleStep>)
        ensures
            are_ansible_bindings(r@),
    {
        let mut r: Vec<Registration<AnsibleStep>> = Vec::new();
        r.push(
            Registration {
                event: "onBuildMainServer".to_owned(),
                handler: AnsibleStep::BuildControlPlane,
            },
        );
        r.push(
            Registration { event: "onBuildNodeServers".to_owned(), handler: AnsibleStep::BuildNodes },
        );
        r
    }
}

impl Service for Ansible {
    type Handler = AnsibleStep;

    fn name(&self) -> (r: String)
        ensures
            r@ == "Ansible"@,
    {
        Ansible::name(self)
    }

    fn register(&self) -> (r: ServiceRegister<AnsibleStep>)
        ensures
            are_ansible_bindings(r@),
    {
        Ansible::register(self)
    }
}

} // verus!
