use nya::cli::base;
use nya::core_services::executor::{exit_report, step_report, Staging, TokenScanner};
use nya::core_services::nya_base::{prepare, BaseStep};
use nya::core_services::nya_core::get_core_services;
use nya::json::Json;
use nya::kernel::event_bus::{Emission, Outcome};
use nya::kernel::planner::{RunAction, RunState};
use nya::kernel::schema::SchemaFile;
use nya::kernel::service::Registration;
use nya::runtime::nya::{BuildError, Nya};

fn one_step_schema() -> Vec<SchemaFile> {
    vec![SchemaFile {
        name: "test.json".to_string(),
        content: "{\"test_cmd\": {\"steps\": [\"onBuildMainServer\"]}}".to_string(),
    }]
}

fn base_registration() -> Vec<Registration<BaseStep>> {
    vec![Registration { event: "onBuildMainServer".to_string(), handler: BaseStep::BuildControlPlane }]
}

#[test]
fn control_plane_build_captures_the_token_end_to_end() {
    let config = "{\"nya\":{\"control_plane\":{\"vars\":{}}}}";
    let mut nya = Nya::build_with(&one_step_schema(), "test_cmd", config, base_registration());
    let scanner = TokenScanner::new().unwrap();
    let mut log: Vec<String> = Vec::new();

    let action = nya.run();
    assert_eq!(action, RunAction::Emit { index: 0, step: "onBuildMainServer".to_string() });
    let scheduled: Vec<BaseStep> = nya.trigger("onBuildMainServer").into_iter().copied().collect();
    assert_eq!(scheduled, vec![BaseStep::BuildControlPlane]);
    let mut emission = Emission::new("onBuildMainServer", scheduled.len());

    let preparation = prepare(scheduled[0], nya.context_ref(), 0);
    log.push(preparation.announce.clone());
    assert!(matches!(preparation.staging, Staging::Write { .. }));
    // The provisioning tool is stood in for by what it prints.
    for line in ["K3S_TOKEN=abc123"] {
        let captured = scanner.scan(line);
        log.push(nya.on_stdout_line(captured, line));
    }
    log.push(step_report(&exit_report(true, "exit status: 0"), &preparation.done));
    emission.finish(0, Outcome::Completed);

    assert_eq!(nya.step_done(&emission), RunAction::Finish);
    assert_eq!(nya.current(), RunState::Completed);
    assert_eq!(nya.get("k3s_node_token"), Json::text("abc123"));
    assert!(log.contains(&"K3S_TOKEN=abc123".to_string()));
    assert_eq!(log, vec!["Building control plane...", "K3S_TOKEN=abc123", "Control plane built successfully."]);
}

#[test]
fn unknown_command_is_fatal_when_the_runtime_is_built() {
    let config = "{\"nya\":{}}";
    let err = Nya::try_build("no:such:command", config, get_core_services()).err().unwrap();
    assert_eq!(err, BuildError::Schema("Get Schema(): wasn't able to successfully retrieve schema".to_string()));
    assert_eq!(err.message(), "Get Schema(): wasn't able to successfully retrieve schema");
    let err = Nya::try_build_with(&one_step_schema(), "other", config, base_registration()).err().unwrap();
    assert_eq!(err, BuildError::Schema("Get Schema(): wasn't able to successfully retrieve schema".to_string()));
    assert_eq!(Nya::<BaseStep>::check("no:such:command", config), Err(err));
    assert_eq!(Nya::<BaseStep>::check("base:build", config), Ok(()));
}

#[test]
fn bad_configuration_is_fatal_and_comes_first() {
    let err = Nya::try_build("no:such:command", "not json", get_core_services()).err().unwrap();
    assert!(matches!(&err, BuildError::Context(message) if message.starts_with("Failed to parse context: ")));
    let err = Nya::try_build("base:build", "[]", get_core_services()).err().unwrap();
    assert_eq!(err, BuildError::Context("Failed to parse context: the document is not a JSON object".to_string()));
}

#[test]
fn runtime_gets_sets_and_triggers() {
    let mut nya = Nya::build("base:build", "{\"a\": \"b\"}", get_core_services());
    assert_eq!(nya.get("a").as_str(), Some("b"));
    assert_eq!(nya.get("zzz"), Json::Null);
    nya.set("zzz", Json::Bool(true));
    assert_eq!(nya.get("zzz"), Json::Bool(true));
    assert_eq!(nya.trigger("log").len(), 1);
    assert_eq!(nya.trigger("onBuildNodeServers").len(), 1);
    assert!(nya.trigger("nothing bound").is_empty());
    assert_eq!(nya.schema().steps.len(), 4);
    assert_eq!(nya.current(), RunState::Idle);
}

#[test]
fn base_commands_build_their_runtimes() {
    let build = base::build("{}");
    assert_eq!(
        build.schema().steps,
        vec!["onBuildMainServer", "onBuildNodeServers", "onRunPostBuild", "onValidateCluster"]
    );
    let destroy = base::try_destroy("{}").unwrap();
    assert_eq!(destroy.schema().steps, vec!["onDestroyNodes", "onDestroyControlPlane"]);
    assert!(matches!(base::try_build(""), Err(BuildError::Context(_))));
    assert_eq!(base::try_build("{}").unwrap().schema().steps.len(), 4);
}

#[test]
fn whole_build_runs_its_steps_in_order() {
    let mut nya = base::build("{\"nya.nodes.vars\": {}}");
    let scanner = TokenScanner::new().unwrap();
    let mut order: Vec<String> = Vec::new();
    let mut vars_of_nodes = String::new();
    let mut action = nya.run();
    while let RunAction::Emit { index: _, step } = action {
        let scheduled: Vec<_> = nya.trigger(&step).into_iter().copied().collect();
        let mut emission = Emission::new(&step, scheduled.len());
        for (i, handler) in scheduled.iter().enumerate() {
            if let nya::core_services::nya_core::CoreHandler::Base(base_step) = handler {
                let preparation = prepare(*base_step, nya.context_ref(), i as u64);
                if *base_step == BaseStep::BuildControlPlane {
                    let line = "msg: K3S_TOKEN=K10::server:abc";
                    nya.on_stdout_line(scanner.scan(line), line);
                }
                if *base_step == BaseStep::BuildNodes {
                    vars_of_nodes = preparation.vars.clone();
                }
            }
            emission.finish(i, Outcome::Completed);
        }
        order.push(step);
        action = nya.step_done(&emission);
    }
    assert_eq!(order, vec!["onBuildMainServer", "onBuildNodeServers", "onRunPostBuild", "onValidateCluster"]);
    assert_eq!(vars_of_nodes, "{\"k3s_node_token\":\"K10::server:abc\"}");
}
