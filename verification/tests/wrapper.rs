use gwrap::runtime::SharedStore;
use gwrap::runtime::ValueStore;
use gwrap::runtime::WidgetStore;
use gwrap::runtime::BASE_CAPABILITY;
use gwrap::runtime::DRAWABLE_CAPABILITY;
use gwrap::runtime::WIDGET_TYPE;
use gwrap::wrapper::Boxed;
use gwrap::wrapper::Container;
use gwrap::wrapper::Object;
use gwrap::wrapper::Refcounted;
use gwrap::wrapper::wrap_round_trip;

#[test]
fn boxed_unwrap_reproduces_the_wrapped_handle() {
    let mut rt = ValueStore::new();
    let h = rt.allocate(55);
    let v = Boxed::wrap(h);
    assert_eq!(v.unwrap(), h);

    let absent = Boxed::wrap(0);
    assert_eq!(absent.unwrap(), 0);
}

#[test]
fn refcounted_unwrap_reproduces_the_wrapped_handle() {
    let mut rt = SharedStore::new();
    let h = rt.allocate();
    let v = Refcounted::wrap(h);
    assert_eq!(v.unwrap(), h);

    let absent = Refcounted::wrap(0);
    assert_eq!(absent.unwrap(), 0);
}

#[test]
fn object_unwrap_reproduces_the_wrapped_handle() {
    let mut rt = WidgetStore::new();
    let h = rt.allocate();
    let v = Object::wrap::<WidgetStore>(h);
    assert_eq!(v.unwrap(), h);

    let absent = Object::wrap::<WidgetStore>(0);
    assert_eq!(absent.unwrap(), 0);
}

#[test]
fn wrap_round_trip_holds_for_every_model() {
    assert_eq!(wrap_round_trip::<Boxed>(9), 9);
    assert_eq!(wrap_round_trip::<Boxed>(0), 0);
    assert_eq!(wrap_round_trip::<Refcounted>(9), 9);
    assert_eq!(wrap_round_trip::<Refcounted>(0), 0);
}

#[test]
fn boxed_duplicate_copies_deeply_and_owners_are_independent() {
    let mut rt = ValueStore::new();
    let h = rt.allocate(55);
    let mut v = Boxed::wrap(h);
    let mut w = v.duplicate(&mut rt);

    assert_ne!(w.unwrap(), 0);
    assert_ne!(w.unwrap(), v.unwrap());
    assert_eq!(rt.read(w.unwrap()), rt.read(v.unwrap()));

    let kept = w.unwrap();
    v.release(&mut rt);
    assert!(rt.is_live(kept));
    assert_eq!(rt.read(kept), 55);
    assert!(!rt.is_live(h));

    w.release(&mut rt);
    assert!(!rt.is_live(kept));
}

#[test]
fn boxed_duplicate_of_absent_is_absent() {
    let mut rt = ValueStore::new();
    let v = Boxed::wrap(0);
    let w = v.duplicate(&mut rt);
    assert_eq!(w.unwrap(), 0);
}

#[test]
fn boxed_release_is_idempotent() {
    let mut rt = ValueStore::new();
    let h = rt.allocate(55);
    let mut v = Boxed::wrap(h);
    v.release(&mut rt);
    assert_eq!(v.unwrap(), 0);
    v.release(&mut rt);
    assert_eq!(v.unwrap(), 0);
}

#[test]
fn refcounted_duplicate_aliases_and_one_release_keeps_the_other_usable() {
    let mut rt = SharedStore::new();
    let h = rt.allocate();
    let mut v = Refcounted::wrap(h);
    let w = v.duplicate(&mut rt);

    assert_eq!(w.unwrap(), v.unwrap());
    assert_eq!(rt.ref_count(h), 2);

    v.release(&mut rt);
    assert!(rt.is_live(w.unwrap()));
    assert_eq!(rt.ref_count(h), 1);
}

#[test]
fn refcounted_last_release_frees() {
    let mut rt = SharedStore::new();
    let h = rt.allocate();
    let mut v = Refcounted::wrap(h);
    let mut w = v.duplicate(&mut rt);
    v.release(&mut rt);
    w.release(&mut rt);
    assert!(!rt.is_live(h));
}

#[test]
fn refcounted_release_is_idempotent() {
    let mut rt = SharedStore::new();
    let h = rt.allocate();
    let mut v = Refcounted::wrap(h);
    let w = v.duplicate(&mut rt);
    v.release(&mut rt);
    assert_eq!(v.unwrap(), 0);
    v.release(&mut rt);
    assert_eq!(v.unwrap(), 0);
    assert!(rt.is_live(w.unwrap()));
}

#[test]
fn object_carries_type_identity_and_capabilities() {
    let mut rt = WidgetStore::new();
    let h = rt.allocate();
    let v = Object::wrap::<WidgetStore>(h);

    assert_eq!(v.get_type(), WIDGET_TYPE);
    assert!(v.conforms_to::<WidgetStore>(BASE_CAPABILITY));
    assert!(v.conforms_to::<WidgetStore>(DRAWABLE_CAPABILITY));
    assert!(!v.conforms_to::<WidgetStore>(77));
}

#[test]
fn object_duplicate_aliases_and_one_release_keeps_the_other_usable() {
    let mut rt = WidgetStore::new();
    let h = rt.allocate();
    let mut v = Object::wrap::<WidgetStore>(h);
    let w = v.duplicate(&mut rt);

    assert_eq!(w.unwrap(), v.unwrap());
    assert_eq!(w.get_type(), v.get_type());
    assert_eq!(rt.ref_count(h), 2);

    v.release(&mut rt);
    assert!(rt.is_live(w.unwrap()));
    assert_eq!(rt.ref_count(h), 1);
}
