use nya::json::Json;
use nya::kernel::payload::{Get, Payload, PayloadError};

#[test]
fn payload_narrowed_to_its_own_type_gives_the_value() {
    assert_eq!(Payload::new("text".to_string()).get::<String>().unwrap(), "text");
    assert_eq!(*Payload::new(true).get::<bool>().unwrap(), true);
    assert_eq!(*Payload::new(-5i64).get::<i64>().unwrap(), -5);
    assert_eq!(*Payload::new(Json::text("j")).get::<Json>().unwrap(), Json::text("j"));
}

#[test]
fn payload_narrowed_to_another_type_is_a_mismatch() {
    let payload = Payload::new("text".to_string());
    match payload.get::<bool>() {
        Err(PayloadError::TypeMismatch { expected, actual }) => {
            assert_eq!(expected, "bool");
            assert_eq!(actual, "String");
        }
        other => panic!("expected a mismatch, got {:?}", other),
    }
    match Payload::new(7i64).get::<Json>() {
        Err(PayloadError::TypeMismatch { expected, actual }) => {
            assert_eq!(expected, "Json");
            assert_eq!(actual, "i64");
        }
        other => panic!("expected a mismatch, got {:?}", other),
    }
}

#[test]
fn empty_payload_holds_nothing() {
    assert!(matches!(Payload::empty().get::<String>(), Err(PayloadError::Empty)));
    assert!(matches!(Payload::empty().into_arc::<i64>(), Err(PayloadError::Empty)));
    assert_eq!(Payload::empty().tag_name(), None);
}

#[test]
fn payload_into_arc_hands_out_the_shared_value() {
    let payload = Payload::new("shared".to_string());
    let other = payload.share();
    let a = payload.into_arc::<String>().unwrap();
    let b = other.into_arc::<String>().unwrap();
    assert!(std::sync::Arc::ptr_eq(&a, &b));
    assert_eq!(*a, "shared");
    assert!(matches!(
        Payload::new(false).into_arc::<String>(),
        Err(PayloadError::TypeMismatch { expected: "String", actual: "bool" })
    ));
}

#[test]
fn payload_keeps_the_tag_of_its_type() {
    assert_eq!(Payload::new(1i64).tag_name(), Some("i64"));
    assert_eq!(Payload::new(Json::Null).tag_name(), Some("Json"));
    assert_eq!(Payload::new(String::new()).share().tag_name(), Some("String"));
}

#[test]
fn a_mismatch_in_one_handler_leaves_its_siblings_alone() {
    let payload = Payload::new("line".to_string());
    let mut seen: Vec<String> = Vec::new();
    let mut errors = 0;
    for wants_flag in [true, false, true] {
        let shared = payload.share();
        if wants_flag {
            if shared.get::<bool>().is_err() {
                errors += 1;
            }
        } else {
            seen.push(shared.get::<String>().unwrap().clone());
        }
    }
    assert_eq!(errors, 2);
    assert_eq!(seen, vec!["line"]);
}

#[test]
fn payload_clone_shares_and_default_is_empty() {
    let payload = Payload::new("shared".to_string());
    let copy = payload.clone();
    let a = payload.into_arc::<String>().unwrap();
    let b = copy.into_arc::<String>().unwrap();
    assert!(std::sync::Arc::ptr_eq(&a, &b));
    assert!(matches!(Payload::default().get::<String>(), Err(PayloadError::Empty)));
    assert_eq!(Payload::default().clone().tag_name(), None);
}
