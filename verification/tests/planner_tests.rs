use nya::json::Json;
use nya::kernel::context::{get_context, NyaContext};
use nya::kernel::event_bus::{Emission, EventBus, NyaEventBus, Outcome};
use nya::kernel::planner::{run_completed, step_banner, step_completed, Planner, RunAction, RunState};
use nya::kernel::registry::register_schemas;
use nya::kernel::schema::NyaSchema;

type TestFn = fn(&mut NyaContext);

fn test_fn(ctx: &mut NyaContext) {
    ctx.set("test_key", Json::text("test_value"));
}

fn test_fn2(ctx: &mut NyaContext) {
    let seen = ctx.get("test_key");
    ctx.set("seen_by_second", seen);
    ctx.set("test_key2", Json::text("test_value2"));
}

fn get_test_bus() -> NyaEventBus<TestFn> {
    let mut bus = NyaEventBus::new();
    bus.on("test_event".to_string(), test_fn as TestFn);
    bus.on("test_event2".to_string(), test_fn2 as TestFn);
    bus
}

fn get_test_planner() -> Planner<TestFn> {
    let schema = register_schemas().get_schema("test_cmd").unwrap();
    Planner::new(get_test_bus(), schema)
}

/// Runs a planner to its end, each step's handlers one after the other.
fn execute(planner: &mut Planner<TestFn>, ctx: &mut NyaContext) -> Vec<String> {
    let mut emitted = Vec::new();
    let mut action = planner.execute();
    while let RunAction::Emit { index: _, step } = action {
        let scheduled = planner.emit(&step);
        let mut emission = Emission::new(&step, scheduled.len());
        for (i, handler) in scheduled.iter().enumerate() {
            handler(ctx);
            emission.finish(i, Outcome::Completed);
        }
        emitted.push(step);
        action = planner.step_done(&emission);
    }
    assert_eq!(action, RunAction::Finish);
    emitted
}

#[test]
fn planner_can_execute_schema() {
    let mut test_planner = get_test_planner();
    let mut test_ctx = get_context("{\"test1\": \"value1\"}").unwrap();
    let emitted = execute(&mut test_planner, &mut test_ctx);
    assert_eq!(emitted, vec!["test_event", "test_event2"]);
    assert_eq!(test_ctx.get("test_key").as_str(), Some("test_value"));
    assert_eq!(test_ctx.get("test_key2").as_str(), Some("test_value2"));
}

#[test]
fn second_step_sees_what_the_first_step_wrote() {
    let mut planner = get_test_planner();
    let mut ctx = NyaContext::empty();
    execute(&mut planner, &mut ctx);
    assert_eq!(ctx.get("seen_by_second").as_str(), Some("test_value"));
    assert_eq!(planner.current(), RunState::Completed);
}

#[test]
fn planner_waits_until_the_running_step_is_resolved() {
    let mut planner = get_test_planner();
    assert_eq!(planner.current(), RunState::Idle);
    assert_eq!(planner.execute(), RunAction::Emit { index: 0, step: "test_event".to_string() });
    assert_eq!(planner.current(), RunState::Running(0));
    assert_eq!(planner.execute(), RunAction::Wait);

    let mut emission = Emission::new("test_event", 2);
    emission.finish(0, Outcome::Completed);
    assert_eq!(planner.step_done(&emission), RunAction::Wait);
    assert_eq!(planner.current(), RunState::Running(0));

    let other = Emission::new("log", 0);
    assert_eq!(planner.step_done(&other), RunAction::Wait);
    assert_eq!(planner.current(), RunState::Running(0));

    emission.finish(1, Outcome::Failed("boom".to_string()));
    assert_eq!(planner.step_done(&emission), RunAction::Emit { index: 1, step: "test_event2".to_string() });
    assert_eq!(planner.step_done(&emission), RunAction::Wait);
    assert_eq!(planner.step_done(&Emission::new("test_event2", 0)), RunAction::Finish);
    assert_eq!(planner.current(), RunState::Completed);
    assert_eq!(planner.step_done(&Emission::new("test_event2", 0)), RunAction::Wait);
}

#[test]
fn planner_of_an_empty_schema_is_over_at_once() {
    let mut planner: Planner<TestFn> = Planner::new(NyaEventBus::new(), NyaSchema { steps: vec![] });
    assert_eq!(planner.execute(), RunAction::Finish);
    assert_eq!(planner.current(), RunState::Completed);
}

#[test]
fn progress_lines() {
    assert_eq!(step_banner(0, 2, "test_event"), "\n Step 1/2: test_event");
    assert_eq!(step_banner(11, 120, "x"), "\n Step 12/120: x");
    assert_eq!(step_completed(0), "Step 1 completed");
    assert_eq!(step_completed(98), "Step 99 completed");
    assert_eq!(run_completed(), "\n Execution completed successfully!");
}
