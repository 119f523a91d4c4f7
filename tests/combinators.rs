use std::cell::Cell;

use life::{
    Claims, ClaimsRotation, Corruptible, Current, MakeFragile, MakeIntrospective,
    MakeStopGrowing, Mutable, Mutator, Outcome, Validatable,
};

fn increment(value: i32) -> i32 {
    value + 1
}

fn validate(value: &i32) -> bool {
    *value < 1
}

fn destroy(_: &i32) {}

#[test]
fn make_mutable() {
    let mutable = increment.make_mutable(0);
    assert_eq!(*mutable.mutate().unwrap().inner(), 1)
}

#[test]
fn make_interspective() {
    let mutable = increment.make_mutable(0);
    let introspective = validate.make_introspective(mutable);
    assert_eq!(introspective.mutate().is_none(), true)
}

#[test]
fn make_stop_growing() {
    let mutable = increment.make_mutable(0);
    let stop_growing = validate.make_stop_growing(mutable);
    assert_eq!(*stop_growing.mutate().unwrap().inner(), 0)
}

#[test]
fn make_fragile() {
    let mutable = increment.make_mutable(0);
    let x = destroy.make_fragile(validate, mutable);
    assert_eq!(x.mutate().is_none(), true);
}

#[test]
fn mutable_chain_advances_twice() {
    let m = increment.make_mutable(5);
    let m = m.mutate().unwrap();
    let m = m.mutate().unwrap();
    assert_eq!(*m.inner(), 7);
    assert_eq!(*m.current_ref(), 7);
}

#[test]
fn introspective_accepts_valid_successor() {
    let accept_small = |v: &i32| *v < 10;
    let x = accept_small.make_introspective(increment.make_mutable(3));
    assert_eq!(*x.inner(), 3);
    let next = x.mutate().unwrap();
    assert_eq!(*next.inner(), 4);
}

#[test]
fn stop_growing_accepts_valid_successor() {
    let accept_small = |v: &i32| *v < 10;
    let x = accept_small.make_stop_growing(increment.make_mutable(3));
    assert_eq!(*x.mutate().unwrap().inner(), 4);
}

#[test]
fn stop_growing_keeps_freezing() {
    let x = validate.make_stop_growing(increment.make_mutable(0));
    let x = x.mutate().unwrap();
    let x = x.mutate().unwrap();
    assert_eq!(*x.inner(), 0);
}

#[test]
fn fragile_destroys_rejected_candidate_once() {
    let calls = Cell::new(0u32);
    let seen = Cell::new(0i32);
    let record = |v: &i32| {
        calls.set(calls.get() + 1);
        seen.set(*v);
    };
    let x = record.make_fragile(validate, increment.make_mutable(0));
    assert!(x.mutate().is_none());
    assert_eq!(calls.get(), 1);
    assert_eq!(seen.get(), 1);
}

#[test]
fn fragile_attempt_reports_revocation() {
    let x = destroy.make_fragile(validate, increment.make_mutable(0));
    assert!(matches!(x.attempt(), Outcome::Revoked { purged: true }));
}

#[test]
fn fragile_accepts_without_destroying() {
    let calls = Cell::new(0u32);
    let record = |_: &i32| calls.set(calls.get() + 1);
    let accept_small = |v: &i32| *v < 10;
    let x = record.make_fragile(accept_small, increment.make_mutable(2));
    let next = x.mutate().unwrap();
    assert_eq!(*next.inner(), 3);
    assert_eq!(calls.get(), 0);
}

#[test]
fn fragile_halted_mutation_does_not_destroy() {
    let calls = Cell::new(0u32);
    let record = |_: &Claims| calls.set(calls.get() + 1);
    let accept_all = |_: &Claims| true;
    let start = Claims { exp: 0, from: 0, count: i64::MAX };
    let rotation = ClaimsRotation { now: 10, exp_in: 60 };
    let x = record.make_fragile(accept_all, rotation.make_mutable(start));
    assert!(matches!(x.attempt(), Outcome::Halted));
    assert_eq!(calls.get(), 0);
}

#[test]
fn fragile_corrupt_destroys_current_state() {
    let seen = Cell::new(-1i32);
    let record = |v: &i32| seen.set(*v);
    let x = record.make_fragile(validate, increment.make_mutable(7));
    assert!(x.corrupt());
    assert_eq!(seen.get(), 7);
}

#[test]
fn validatable_judges_held_state() {
    let a = validate.make_introspective(increment.make_mutable(0));
    assert!(a.is_valid());
    let b = validate.make_stop_growing(increment.make_mutable(4));
    assert!(!b.is_valid());
    let c = destroy.make_fragile(validate, increment.make_mutable(-3));
    assert!(c.is_valid());
}

#[test]
fn combinators_nest() {
    let accept_small = |v: &i32| *v < 3;
    let inner = accept_small.make_introspective(increment.make_mutable(0));
    let outer = validate.make_stop_growing(inner);
    // the inner accepts 1, the outer rejects it and keeps 0
    assert_eq!(*outer.mutate().unwrap().inner(), 0);
}
