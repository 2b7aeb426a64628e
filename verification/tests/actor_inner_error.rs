use nexus_actor::actor_inner_error::{ActorInnerError, TakeError};
use std::any::TypeId;

#[derive(Debug, PartialEq)]
struct Boom {
    code: u32,
}

#[test]
fn a_captured_value_comes_back() {
    let mut error = ActorInnerError::new(Boom { code: 7 });
    assert!(error.holds_value());
    assert!(error.is_type::<Boom>());
    assert!(!error.is_type::<String>());
    let value = error.take::<Boom>();
    assert_eq!(value.unwrap(), Boom { code: 7 });
    assert!(!error.holds_value());
}

#[test]
fn a_second_take_fails_with_already_taken() {
    let mut error = ActorInnerError::new(Boom { code: 1 });
    assert!(error.take::<Boom>().is_ok());
    assert!(matches!(error.take::<Boom>(), Err(TakeError::AlreadyTaken)));
    assert!(matches!(error.take::<String>(), Err(TakeError::AlreadyTaken)));
    assert!(!error.is_type::<Boom>());
}

#[test]
fn a_take_of_another_type_leaves_the_value_intact() {
    let mut error = ActorInnerError::new(Boom { code: 3 });
    match error.take::<String>() {
        Err(TakeError::TypeMismatch { expected, found }) => {
            assert_eq!(expected, TypeId::of::<String>());
            assert_eq!(found, TypeId::of::<Boom>());
        }
        _ => panic!("expected a type mismatch"),
    }
    assert!(error.holds_value());
    assert!(error.is_type::<Boom>());
    assert_eq!(error.take::<Boom>().unwrap(), Boom { code: 3 });
}

#[test]
fn a_shared_value_cannot_be_taken() {
    let mut error = ActorInnerError::new(Boom { code: 5 });
    let other = error.clone();
    assert!(matches!(error.take::<Boom>(), Err(TakeError::StillShared)));
    assert!(error.holds_value());
    assert!(error.is_type::<Boom>());
    drop(other);
    assert_eq!(error.take::<Boom>().unwrap(), Boom { code: 5 });
}

#[test]
fn a_copy_of_an_empty_container_is_empty() {
    let mut error = ActorInnerError::new(1u8);
    assert_eq!(error.take::<u8>().unwrap(), 1);
    let mut copy = error.clone();
    assert!(!copy.holds_value());
    assert!(matches!(copy.take::<u8>(), Err(TakeError::AlreadyTaken)));
}

#[test]
fn text_is_captured_as_a_string() {
    let mut from_slice = ActorInnerError::from_str("error");
    assert!(from_slice.is_type::<String>());
    assert_eq!(from_slice.take::<String>().unwrap(), "error");
    let mut from_string = ActorInnerError::from_string("Boom!".to_string());
    assert_eq!(from_string.take::<String>().unwrap(), "Boom!");
}

#[test]
fn the_backtrace_of_the_capture_is_kept() {
    let mut error = ActorInnerError::new(Boom { code: 9 });
    let frames = error.backtrace().frames().len();
    let _ = error.take::<Boom>();
    assert_eq!(error.backtrace().frames().len(), frames);
}

#[test]
fn containers_compare_by_the_value_they_share() {
    let mut a = ActorInnerError::new(Boom { code: 1 });
    let b = ActorInnerError::new(Boom { code: 1 });
    let shared = a.clone();
    assert!(a.same_error(&shared));
    assert!(a.same_error(&a));
    assert!(!a.same_error(&b));
    drop(shared);
    let _ = a.take::<Boom>();
    assert!(!a.same_error(&b));
    assert!(!b.same_error(&a));
    let mut c = ActorInnerError::new(2u8);
    let _ = c.take::<u8>();
    assert!(a.same_error(&c));
}
