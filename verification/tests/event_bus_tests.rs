use nya::json::Json;
use nya::kernel::context::{get_context, NyaContext};
use nya::kernel::event_bus::{Emission, EventBus, NyaEventBus, Outcome};
use nya::kernel::payload::Payload;
use nya::kernel::service::{Registration, Service};

type TestFn = fn(&mut NyaContext, &Payload);

fn test_fn(ctx: &mut NyaContext, _payload: &Payload) {
    ctx.set("test_key", Json::text("test_value"));
}

fn test_fn2(ctx: &mut NyaContext, _payload: &Payload) {
    ctx.set("test_key2", Json::text("test_value2"));
}

struct TestService;

impl Service for TestService {
    type Handler = TestFn;

    fn name(&self) -> String {
        "Test Service".to_string()
    }

    fn register(&self) -> Vec<Registration<TestFn>> {
        vec![
            Registration { event: "test".to_string(), handler: test_fn as TestFn },
            Registration { event: "test".to_string(), handler: test_fn2 as TestFn },
        ]
    }
}

fn test_context() -> NyaContext {
    get_context("{\"test1\": \"value1\"}").unwrap()
}

/// Runs what an emission schedules, last handler first, and joins.
fn emit_and_join(bus: &NyaEventBus<TestFn>, ctx: &mut NyaContext, event: &str) -> Emission {
    let scheduled = bus.emit(event);
    let mut emission = Emission::new(event, scheduled.len());
    for (index, handler) in scheduled.iter().enumerate().rev() {
        handler(ctx, &Payload::empty());
        emission.finish(index, Outcome::Completed);
    }
    emission
}

#[test]
fn can_register_events() {
    let mut event_bus = NyaEventBus::new();
    let svc = TestService;
    event_bus.on("test_event".to_string(), svc.register()[0].handler);
    assert_eq!(event_bus.len(), 1);
}

#[test]
fn event_bus_can_run_handlers_on_event() {
    let mut event_bus = NyaEventBus::new();
    let svc = TestService;
    let handler = svc.register()[0].handler;
    let event_name = svc.register()[0].event.clone();
    let mut ctx = test_context();
    event_bus.on(event_name.clone(), handler);
    let emission = emit_and_join(&event_bus, &mut ctx, &event_name);
    assert!(emission.is_resolved());
    let value = ctx.get("test_key");
    assert_eq!(value.as_str(), Some("test_value"));
}

#[test]
fn event_bus_can_run_multiple_handlers_for_same_event() {
    let mut event_bus = NyaEventBus::new();
    let svc = TestService;
    let handler1 = svc.register()[0].handler;
    let handler2 = svc.register()[1].handler;
    let event_name = svc.register()[0].event.clone();
    let mut ctx = test_context();
    event_bus.on(event_name.clone(), handler1);
    event_bus.on(event_name.clone(), handler2);
    assert_eq!(event_bus.emit(&event_name).len(), 2);
    let emission = emit_and_join(&event_bus, &mut ctx, &event_name);
    assert!(emission.is_resolved());
    assert_eq!(ctx.get("test_key").as_str(), Some("test_value"));
    assert_eq!(ctx.get("test_key2").as_str(), Some("test_value2"));
}

#[test]
fn event_bus_doesnt_run_if_theres_no_event() {
    let mut event_bus = NyaEventBus::new();
    let svc = TestService;
    let handler = svc.register()[0].handler;
    let event_name = svc.register()[0].event.clone();
    let mut ctx = test_context();
    event_bus.on(event_name.clone(), handler);
    assert!(event_bus.emit("fake_event").is_empty());
    let emission = emit_and_join(&event_bus, &mut ctx, "fake_event");
    assert!(emission.is_resolved());
    assert!(emission.failures().is_empty());
    assert_eq!(Json::Null, ctx.get("test_key"));
    assert_eq!(event_bus.len(), 1);
}

#[test]
fn event_bus_keeps_handlers_in_the_order_of_binding() {
    let mut bus: NyaEventBus<u32> = NyaEventBus::new();
    bus.on("a".to_string(), 1);
    bus.on("b".to_string(), 2);
    bus.on("a".to_string(), 3);
    bus.on("a".to_string(), 1);
    assert_eq!(bus.emit("a"), vec![&1, &3, &1]);
    assert_eq!(bus.emit("b"), vec![&2]);
    assert_eq!(bus.len(), 2);
}

#[test]
fn emission_resolves_only_after_every_handler_finished() {
    let mut emission = Emission::new("step", 3);
    assert!(!emission.is_resolved());
    emission.finish(2, Outcome::Completed);
    emission.finish(0, Outcome::Completed);
    emission.finish(0, Outcome::Completed);
    assert!(!emission.is_resolved());
    emission.finish(7, Outcome::Completed);
    assert!(!emission.is_resolved());
    emission.finish(1, Outcome::Completed);
    assert!(emission.is_resolved());
    assert_eq!(emission.step_name(), "step");
}

#[test]
fn emission_counts_a_failed_handler_as_finished_and_reports_it() {
    let mut emission = Emission::new("onBuildMainServer", 2);
    emission.finish(1, Outcome::Failed("task 7 panicked".to_string()));
    assert!(!emission.is_resolved());
    emission.finish(0, Outcome::Completed);
    assert!(emission.is_resolved());
    assert_eq!(emission.failures(), &vec!["Step 'onBuildMainServer' failed: task 7 panicked".to_string()]);
    emission.finish(5, Outcome::Failed("no such handler".to_string()));
    assert_eq!(emission.failures().len(), 1);
}
