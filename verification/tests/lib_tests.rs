use nya::Event;

struct TestEvent;
struct LogEvent;

impl Event for TestEvent {
    type Payload = String;

    const NAME: &'static str = "nya::lib_tests::TestEvent";

    fn handler(&self, _payload: &mut String) {
        println!("test_event");
    }
}

impl Event for LogEvent {
    type Payload = Vec<String>;

    const NAME: &'static str = "nya::lib_tests::LogEvent";

    fn handler(&self, payload: &mut Vec<String>) {
        payload.push(String::from("test_string"));
    }
}

#[test]
fn can_get_event_names() {
    let event = TestEvent;
    let event_name = &event.name();
    let event_short_name = &event.short_name();
    assert_eq!(*event_name, "nya::lib_tests::TestEvent");
    assert_eq!(*event_short_name, "TestEvent");
}

#[test]
fn can_call_handler() {
    let mut logs: Vec<String> = vec![];
    let event = LogEvent;

    event.handler(&mut logs);

    assert_eq!(logs.len(), 1);
    assert_eq!(logs[0], "test_string");
}

#[test]
fn event_short_name_of_log_event() {
    assert_eq!(LogEvent.short_name(), "LogEvent");
}
