use gwrap::error::Error;
use gwrap::error::ErrorContent;

#[test]
fn create_matches_message() {
    let e = Error::new_literal(42, 7, "boom").unwrap();
    assert!(e.matches(42, 7));
    assert!(!e.matches(42, 8));
    assert!(!e.matches(41, 7));
    assert_eq!(e.message(), "boom");
}

#[test]
fn set_on_populated_is_a_no_op() {
    let mut e = Error::new_literal(42, 7, "boom").unwrap();
    e.set(9, 9, "other");
    assert!(e.matches(42, 7));
    assert!(!e.matches(9, 9));
    assert_eq!(e.message(), "boom");
}

#[test]
fn set_on_absent_assigns() {
    let mut e = Error::absent();
    e.set(42, 7, "boom");
    assert!(e.matches(42, 7));
    assert_eq!(e.message(), "boom");
}

#[test]
fn propagate_into_absent_transfers_and_empties_source() {
    let mut src = Error::new_literal(42, 7, "boom").unwrap();
    let mut dst = Error::absent();
    dst.propagate(&mut src);
    assert!(dst.matches(42, 7));
    assert_eq!(dst.message(), "boom");
    assert!(src.unwrap().is_none());
}

#[test]
fn propagate_into_populated_keeps_receiver_and_discards_source() {
    let mut src = Error::new_literal(42, 7, "boom").unwrap();
    let mut dst = Error::new_literal(1, 1, "x").unwrap();
    dst.propagate(&mut src);
    assert!(dst.matches(1, 1));
    assert_eq!(dst.message(), "x");
    assert!(src.unwrap().is_none());
}

#[test]
fn release_is_idempotent() {
    let mut e = Error::new_literal(42, 7, "boom").unwrap();
    e.release();
    assert!(e.unwrap().is_none());
    e.release();
    assert!(e.unwrap().is_none());
}

#[test]
fn clone_of_absent_is_absent() {
    let e = Error::absent();
    let c = e.clone();
    assert!(c.unwrap().is_none());
}

#[test]
fn clone_is_deep() {
    let mut e1 = Error::new_literal(42, 7, "boom").unwrap();
    let e2 = e1.clone();
    e1.release();
    assert!(e2.matches(42, 7));
    assert_eq!(e2.message(), "boom");
}

#[test]
fn wrap_and_unwrap_reproduce_the_content() {
    let e = Error::wrap(Some(ErrorContent { domain: 3, code: -4, message: String::from("m") }));
    let c = e.unwrap().unwrap();
    assert_eq!(c.domain, 3);
    assert_eq!(c.code, -4);
    assert_eq!(c.message, "m");

    let absent = Error::wrap(None);
    assert!(absent.unwrap().is_none());
}

#[test]
fn error_protocol_end_to_end() {
    let mut e1 = Error::new_literal(42, 7, "boom").unwrap();
    assert!(e1.matches(42, 7));
    assert!(!e1.matches(42, 8));
    assert_eq!(e1.message(), "boom");

    let mut e2 = e1.clone();
    e1.release();
    assert_eq!(e2.message(), "boom");

    let mut e3 = Error::absent();
    e3.propagate(&mut e2);
    assert!(e3.matches(42, 7));

    let mut e4 = Error::new_literal(1, 1, "x").unwrap();
    e4.propagate(&mut e3);
    assert!(e4.matches(1, 1));
    assert!(e3.unwrap().is_none());
}
