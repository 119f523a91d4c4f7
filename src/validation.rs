//! Validations, and the combinators that accept or reject a mutation by them.
use core::marker::PhantomData;
use vstd::prelude::*;
use crate::mutation::{Current, Mutable};

verus! {

/// A predicate over candidate states.
pub trait Validator<T>: Sized {
    /// What a caller must establish before asking about `x`.
    spec fn validation_requires(&self, x: T) -> bool;

    /// `ok` is a possible verdict on `x`.
    spec fn validation_ensures(&self, x: T, ok: bool) -> bool;

    fn is_valid(&self, other: &T) -> (ok: bool)
        requires
            self.validation_requires(*other),
        ensures
            self.validation_ensures(*other, ok),
    ;
}

/// A value that can judge itself.
pub trait Validatable {
    spec fn validity_requires(&self) -> bool;

    /// `ok` is a possible verdict on `self`.
    spec fn validity_ensures(&self, ok: bool) -> bool;

    fn is_valid(&self) -> (ok: bool)
        requires
            self.validity_requires(),
        ensures
            self.validity_ensures(ok),
    ;
}

/// Every predicate function is a validator.
impl<F, T> Validator<T> for F where F: Fn(&T) -> bool {
    open spec fn validation_requires(&self, x: T) -> bool {
        call_requires(*self, (&x,))
    }

    open spec fn validation_ensures(&self, x: T, ok: bool) -> bool {
        call_ensures(*self, (&x,), ok)
    }

    fn is_valid(&self, other: &T) -> (ok: bool) {
        (self)(other)
    }
}

/// A mutable whose successors must pass a validator; a rejected successor ends it.
#[derive(Debug, Copy, PartialEq, Eq, PartialOrd, Ord, Hash)]
pub struct Introspective<V, Q, R>(pub V, pub Q, pub PhantomData<R>);

impl<V, Q, R> Introspective<V, Q, R> {
    pub(crate) fn new(v: V, q: Q) -> (r: Introspective<V, Q, R>)
        ensures
            r.0 == v,
            r.1 == q,
    {
        Introspective(v, q, PhantomData)
    }
}

impl<V, Q: Current<R>, R> Introspective<V, Q, R> {
    pub fn inner(&self) -> (r: &R)
        ensures
            *r == self.1.current(),
    {
        self.1.current_ref()
    }
}

impl<V: Clone, Q: Clone, R> Clone for Introspective<V, Q, R> {
    fn clone(&self) -> (r: Self)
        ensures
            cloned(self.0, r.0),
            cloned(self.1, r.1),
    {
        Introspective(self.0.clone(), self.1.clone(), PhantomData)
    }
}

impl<V, Q: Current<R>, R> Current<R> for Introspective<V, Q, R> {
    open spec fn current(&self) -> R {
        self.1.current()
    }

    fn current_ref(&self) -> (r: &R) {
        self.1.current_ref()
    }
}

impl<V: Validator<R>, Q: Mutable + Current<R>, R> Mutable for Introspective<V, Q, R> {
    open spec fn mutate_requires(&self) -> bool {
        &&& self.1.mutate_requires()
        &&& forall|x: Q| #[trigger]
            self.1.mutate_ensures(Some(x)) ==> self.0.validation_requires(x.current())
    }

    open spec fn mutate_ensures(&self, next: Option<Self>) -> bool {
        match next {
            Some(n) => {
                &&& n.0 == self.0
                &&& self.1.mutate_ensures(Some(n.1))
                &&& self.0.validation_ensures(n.1.current(), true)
            },
            None => {
                ||| self.1.mutate_ensures(None)
                ||| exists|x: Q| #[trigger]
                    self.1.mutate_ensures(Some(x)) && self.0.validation_ensures(x.current(), false)
            },
        }
    }

    /// Returns `None` when the inner mutation fails or its result is rejected.
    fn mutate(self) -> (next: Option<Self>) {
        let Introspective(v, q, _) = self;
        match q.mutate() {
            Some(x) => {
                if v.is_valid(x.current_ref()) {
                    Some(Introspective::new(v, x))
                } else {
                    None
                }
            },
            None => None,
        }
    }
}

impl<V: Validator<R>, Q: Current<R>, R> Validatable for Introspective<V, Q, R> {
    open spec fn validity_requires(&self) -> bool {
        self.0.validation_requires(self.1.current())
    }

    open spec fn validity_ensures(&self, ok: bool) -> bool {
        self.0.validation_ensures(self.1.current(), ok)
    }

    fn is_valid(&self) -> (ok: bool) {
        self.0.is_valid(self.1.current_ref())
    }
}

/// Wraps a mutable into an [`Introspective`] guarded by `self`.
pub trait MakeIntrospective<Q, R>: Sized {
    fn make_introspective(self, v: Q) -> (r: Introspective<Self, Q, R>)
        ensures
            r.0 == self,
            r.1 == v,
    ;
}

impl<V: Validator<R>, Q: Mutable + Current<R>, R> MakeIntrospective<Q, R> for V {
    fn make_introspective(self, v: Q) -> (r: Introspective<Self, Q, R>) {
        Introspective::new(self, v)
    }
}

/// A mutable whose successors must pass a validator; a rejected successor is
/// dropped and the previous state is kept.
#[derive(Debug, Copy, PartialEq, Eq, PartialOrd, Ord, Hash)]
pub struct StopGrowing<V, Q, R>(pub V, pub Q, pub PhantomData<R>);

impl<V, Q, R> StopGrowing<V, Q, R> {
    pub(crate) fn new(v: V, q: Q) -> (r: StopGrowing<V, Q, R>)
        ensures
            r.0 == v,
            r.1 == q,
    {
        StopGrowing(v, q, PhantomData)
    }
}

impl<V: Clone, Q: Clone, R> Clone for StopGrowing<V, Q, R> {
    fn clone(&self) -> (r: Self)
        ensures
            cloned(self.0, r.0),
            cloned(self.1, r.1),
    {
        StopGrowing(self.0.clone(), self.1.clone(), PhantomData)
    }
}

impl<V, Q: Current<R>, R> StopGrowing<V, Q, R> {
    pub fn inner(&self) -> (r: &R)
        ensures
            *r == self.1.current(),
    {
        self.1.current_ref()
    }
}

impl<V, Q: Current<R>, R> Current<R> for StopGrowing<V, Q, R> {
    open spec fn current(&self) -> R {
        self.1.current()
    }

    fn current_ref(&self) -> (r: &R) {
        self.1.current_ref()
    }
}

impl<V: Validator<R>, Q: Mutable + Current<R> + Clone, R> StopGrowing<V, Q, R> {
    /// `next` is what one step yields when the copy `c` of the held mutable is advanced.
    pub open spec fn step_from(&self, c: Q, next: Option<Self>) -> bool {
        match next {
            Some(n) => {
                &&& n.0 == self.0
                &&& {
                    ||| c.mutate_ensures(Some(n.1)) && self.0.validation_ensures(n.1.current(), true)
                    ||| n.1 == self.1 && exists|x: Q| #[trigger]
                        c.mutate_ensures(Some(x)) && self.0.validation_ensures(x.current(), false)
                }
            },
            None => c.mutate_ensures(None),
        }
    }
}

impl<V: Validator<R>, Q: Mutable + Current<R> + Clone, R> Mutable for StopGrowing<V, Q, R> {
    open spec fn mutate_requires(&self) -> bool {
        forall|c: Q| #[trigger]
            cloned(self.1, c) ==> {
                &&& c.mutate_requires()
                &&& forall|x: Q| #[trigger]
                    c.mutate_ensures(Some(x)) ==> self.0.validation_requires(x.current())
            }
    }

    open spec fn mutate_ensures(&self, next: Option<Self>) -> bool {
        exists|c: Q| #[trigger] cloned(self.1, c) && self.step_from(c, next)
    }

    /// Returns the previous state, unchanged, when the successor is rejected.
    fn mutate(self) -> (next: Option<Self>) {
        let StopGrowing(v, q, _) = self;
        let c = q.clone();
        assert(cloned(q, c));
        match c.mutate() {
            Some(x) => {
                if v.is_valid(x.current_ref()) {
                    Some(StopGrowing::new(v, x))
                } else {
                    Some(StopGrowing::new(v, q))
                }
            },
            None => None,
        }
    }
}

impl<V: Validator<R>, Q: Current<R>, R> Validatable for StopGrowing<V, Q, R> {
    open spec fn validity_requires(&self) -> bool {
        self.0.validation_requires(self.1.current())
    }

    open spec fn validity_ensures(&self, ok: bool) -> bool {
        self.0.validation_ensures(self.1.current(), ok)
    }

    fn is_valid(&self) -> (ok: bool) {
        self.0.is_valid(self.1.current_ref())
    }
}

/// Wraps a mutable into a [`StopGrowing`] guarded by `self`.
pub trait MakeStopGrowing<Q, R>: Sized {
    fn make_stop_growing(self, v: Q) -> (r: StopGrowing<Self, Q, R>)
        ensures
            r.0 == self,
            r.1 == v,
    ;
}

impl<V: Validator<R>, Q: Mutable + Current<R>, R> MakeStopGrowing<Q, R> for V {
    fn make_stop_growing(self, v: Q) -> (r: StopGrowing<Self, Q, R>) {
        StopGrowing::new(self, v)
    }
}

/// An introspective whose mutation succeeds with `x`, a value the validator
/// rejects, yields `None`: no outcome holds the rejected value.
pub proof fn lemma_introspective_rejects<V: Validator<R>, Q: Mutable + Current<R>, R>(
    m: Introspective<V, Q, R>,
    x: Q,
)
    requires
        forall|r: Option<Q>| #[trigger] m.1.mutate_ensures(r) ==> r == Some(x),
        forall|ok: bool| #[trigger] m.0.validation_ensures(x.current(), ok) ==> !ok,
        m.1.mutate_ensures(Some(x)),
        m.0.validation_ensures(x.current(), false),
    ensures
        m.mutate_ensures(None),
        forall|r: Option<Introspective<V, Q, R>>| #[trigger] m.mutate_ensures(r) ==> r is None,
{
    assert forall|r: Option<Introspective<V, Q, R>>| #[trigger] m.mutate_ensures(r) implies r is None by {
        if let Some(n) = r {
            assert(m.1.mutate_ensures(Some(n.1)));
            assert(m.0.validation_ensures(x.current(), true));
        }
    }
}

/// A stop-growing whose mutation succeeds with `x`, a value the validator
/// rejects, yields `Some` holding the state it had before, not `x`.
pub proof fn lemma_stop_growing_freezes<V: Validator<R>, Q: Mutable + Current<R> + Clone, R>(
    m: StopGrowing<V, Q, R>,
    x: Q,
)
    requires
        forall|c: Q, r: Option<Q>| #[trigger] cloned(m.1, c) && #[trigger] c.mutate_ensures(r) ==> r
            == Some(x),
        forall|ok: bool| #[trigger] m.0.validation_ensures(x.current(), ok) ==> !ok,
        m.1.mutate_ensures(Some(x)),
        m.0.validation_ensures(x.current(), false),
    ensures
        m.mutate_ensures(Some(StopGrowing::<V, Q, R>(m.0, m.1, PhantomData))),
        forall|r: Option<StopGrowing<V, Q, R>>| #[trigger]
            m.mutate_ensures(r) ==> (r matches Some(n) && n.1 == m.1 && n.current() == m.current()),
{
    assert(cloned(m.1, m.1));
    assert(m.step_from(m.1, Some(StopGrowing::<V, Q, R>(m.0, m.1, PhantomData))));
    assert forall|r: Option<StopGrowing<V, Q, R>>| #[trigger] m.mutate_ensures(r) implies (r matches Some(
        n,
    ) && n.1 == m.1 && n.current() == m.current()) by {
        let c = choose|c: Q| #[trigger] cloned(m.1, c) && m.step_from(c, r);
        assert(c.mutate_ensures(None) ==> None::<Q> == Some(x));
        if let Some(n) = r {
            if c.mutate_ensures(Some(n.1)) && m.0.validation_ensures(n.1.current(), true) {
                assert(Some(n.1) == Some(x));
                assert(m.0.validation_ensures(x.current(), true));
            }
        }
    }
}

} // verus!
