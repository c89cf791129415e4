use std::sync::{Arc, Mutex};

use nya::kernel::handler::Handler;
use nya::kernel::payload::{Get, Payload};

pub struct TestHandler;

impl Handler for TestHandler {
    const NAME: &'static str = "nya::core::handler::handler_tests::TestHandler";

    fn run(&self, _: Payload) {
        println!("test_event");
    }
}

pub struct LogHandler {
    pub messages: Arc<Mutex<Vec<String>>>,
}

impl LogHandler {
    pub fn new() -> Self {
        Self { messages: Arc::new(Mutex::new(Vec::new())) }
    }

    pub fn get_messages(&self) -> Vec<String> {
        self.messages.lock().unwrap().clone()
    }
}

impl Handler for LogHandler {
    const NAME: &'static str = "nya::core::handler::handler_tests::LogHandler";

    fn run(&self, payload: Payload) {
        if let Ok(message) = payload.get::<String>() {
            let mut msgs = self.messages.lock().unwrap();
            msgs.push(message.clone());
        }
    }
}

#[test]
fn can_get_handler_names() {
    let handler = TestHandler;
    let handler_name = &handler.name();
    let handler_short_name = &handler.short_name();
    assert!(&handler_name.contains("TestHandler"));
    assert_eq!(*handler_short_name, "TestHandler");
}

#[test]
fn can_run_function() {
    let handler = LogHandler::new();
    handler.run(Payload::new("test_string".to_string()));
    assert_eq!(handler.get_messages().len(), 1);
    assert_eq!(handler.get_messages()[0], "test_string");
}

#[test]
fn handler_ignores_a_payload_it_cannot_read() {
    let handler = LogHandler::new();
    handler.run(Payload::new(true));
    handler.run(Payload::empty());
    assert_eq!(handler.get_messages().len(), 0);
}
