use nya::core_services::ansible::{Ansible, AnsibleStep};
use nya::core_services::nya_base::{BaseStep, NyaBase};
use nya::core_services::nya_core::{get_core_services, log, test_nya_service, CoreHandler, NyaCore};
use nya::core_services::nya_service::NyaService;
use nya::json::Json;
use nya::kernel::context::{get_context, NyaContext};
use nya::kernel::event_bus::EventBus;
use nya::kernel::payload::{Payload, PayloadError};
use nya::kernel::registry::register_services;
use nya::kernel::service::{build_nya_bus, Registration, Service};

type TestFn = fn(&mut NyaContext, &Payload);

fn test_fn(ctx: &mut NyaContext, _payload: &Payload) {
    ctx.set("test_key", Json::text("test_value"));
}

fn test_fn2(ctx: &mut NyaContext, _payload: &Payload) {
    ctx.set("test_key2", Json::text("test_value2"));
}

struct TestService;

impl Service for TestService {
    type Handler = TestFn;

    fn name(&self) -> String {
        "Test Service".to_string()
    }

    fn register(&self) -> Vec<Registration<TestFn>> {
        vec![
            Registration { event: "test".to_string(), handler: test_fn as TestFn },
            Registration { event: "test".to_string(), handler: test_fn2 as TestFn },
        ]
    }
}

#[test]
fn can_create_service_function() {
    let new_svc_fn: TestFn = test_fn;
    let mut new_nya_ctx = get_context("{\"test1\": \"value1\"}").unwrap();
    new_svc_fn(&mut new_nya_ctx, &Payload::empty());
    let ctx_val = new_nya_ctx.get("test_key");
    assert_eq!(ctx_val.as_str(), Some("test_value"));
}

#[test]
fn can_create_service() {
    let mut new_nya_ctx = get_context("{\"test1\": \"value1\"}").unwrap();
    let svc = TestService;
    let new_svc = &svc.register();
    let new_svc_name = &svc.name();
    let test_fn = new_svc[0].handler;
    test_fn(&mut new_nya_ctx, &Payload::empty());

    assert_eq!(*new_svc_name, "Test Service".to_string());

    let ctx_val = new_nya_ctx.get("test_key");
    assert_eq!(ctx_val.as_str(), Some("test_value"));
}

#[test]
fn bus_is_built_from_the_registrations_of_all_services() {
    let mut reg = TestService.register();
    reg.push(Registration { event: "other".to_string(), handler: test_fn2 as TestFn });
    reg.extend(TestService.register());
    let bus = build_nya_bus(reg);
    assert_eq!(bus.len(), 2);
    let scheduled = bus.emit("test");
    assert_eq!(scheduled.len(), 4);
    let mut ctx = NyaContext::empty();
    scheduled[0](&mut ctx, &Payload::empty());
    assert_eq!(ctx.get("test_key").as_str(), Some("test_value"));
    assert_eq!(ctx.get("test_key2"), Json::Null);
    scheduled[3](&mut ctx, &Payload::empty());
    assert_eq!(ctx.get("test_key2").as_str(), Some("test_value2"));
    assert_eq!(bus.emit("other").len(), 1);
    assert!(bus.emit("none").is_empty());
}

#[test]
fn base_service_binds_each_step_to_its_event() {
    let reg = NyaBase.register();
    let names: Vec<&str> = reg.iter().map(|r| r.event.as_str()).collect();
    assert_eq!(
        names,
        vec![
            "onBuildMainServer",
            "onBuildNodeServers",
            "onRunPostBuild",
            "onValidateCluster",
            "onDestroyControlPlane",
            "onDestroyNodes"
        ]
    );
    assert_eq!(reg[1].handler, BaseStep::BuildNodes);
    assert_eq!(reg[5].handler, BaseStep::DestroyNodes);
    assert_eq!(Service::name(&NyaBase), "NyaBase");
}

#[test]
fn core_services_hold_core_and_base() {
    let reg = get_core_services();
    assert_eq!(reg.len(), 8);
    assert_eq!(reg[0].event, "test");
    assert_eq!(reg[0].handler, CoreHandler::Test);
    assert_eq!(reg[1].event, "log");
    assert_eq!(reg[1].handler, CoreHandler::Log);
    assert_eq!(reg[2].event, "onBuildMainServer");
    assert_eq!(reg[2].handler, CoreHandler::Base(BaseStep::BuildControlPlane));
    assert_eq!(reg[7].handler, CoreHandler::Base(BaseStep::DestroyNodes));
    assert_eq!(NyaCore.name(), "NyaCore");
    assert_eq!(NyaCore.register().len(), 2);
}

#[test]
fn other_services_register_their_handlers() {
    let reg = Ansible.register();
    assert_eq!(reg.len(), 2);
    assert_eq!(reg[0].event, "onBuildMainServer");
    assert_eq!(reg[1].handler, AnsibleStep::BuildNodes);
    assert_eq!(Ansible.name(), "Ansible");
    assert_eq!(NyaService.name(), "NyaService");
    assert_eq!(register_services().len(), 1);
    assert_eq!(register_services()[0].event, "test");
}

#[test]
fn log_handler_writes_a_string_payload() {
    assert_eq!(log(&Payload::new("hello".to_string())).unwrap(), "Value from log: hello");
    assert!(matches!(log(&Payload::empty()), Err(PayloadError::Empty)));
    assert!(matches!(
        log(&Payload::new(1i64)),
        Err(PayloadError::TypeMismatch { expected: "String", actual: "i64" })
    ));
}

#[test]
fn trial_handler_reads_context_and_payload() {
    let ctx = get_context("{\"test\": {\"a\": [1, 2]}}").unwrap();
    let trial = test_nya_service(&ctx, &Payload::new("p".to_string())).unwrap();
    assert_eq!(trial.payload_line, "Value from payload: p");
    assert_eq!(trial.context_line, "Value from context: {\"a\":[1,2]}");
    assert_eq!(trial.log_message, "test_log");
    assert!(test_nya_service(&ctx, &Payload::new(true)).is_err());
    let trial = test_nya_service(&NyaContext::empty(), &Payload::new(String::new())).unwrap();
    assert_eq!(trial.context_line, "Value from context: null");
}

#[test]
fn nya_service_handler_reads_test1() {
    let ctx = get_context("{\"test1\": \"value1\"}").unwrap();
    assert_eq!(nya::core_services::nya_service::test_nya_service(&ctx), Some("Value from ctx: value1".to_string()));
    assert_eq!(nya::core_services::nya_service::test_nya_service(&NyaContext::empty()), None);
}

#[test]
fn services_answer_the_same_through_the_trait() {
    fn names<S: Service>(service: &S) -> (String, Vec<String>) {
        (service.name(), service.register().into_iter().map(|r| r.event).collect())
    }
    assert_eq!(names(&Ansible), ("Ansible".to_string(), vec!["onBuildMainServer".to_string(), "onBuildNodeServers".to_string()]));
    assert_eq!(names(&NyaCore), ("NyaCore".to_string(), vec!["test".to_string(), "log".to_string()]));
    assert_eq!(names(&NyaService), ("NyaService".to_string(), vec!["test".to_string()]));
    let (name, events) = names(&NyaBase);
    assert_eq!(name, "NyaBase");
    assert_eq!(events.len(), 6);
    assert_eq!(events[4], "onDestroyControlPlane");
}
