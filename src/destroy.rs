//! Destruction, and the combinator that revokes a lineage when a successor is rejected.
use core::marker::PhantomData;
use vstd::prelude::*;
use crate::mutation::{Current, Mutable};
use crate::validation::{Validatable, Validator};

verus! {

/// Revokes the lineage that a state belongs to.
pub trait Destroyer<T> {
    /// What a caller must establish before destroying the lineage of `x`.
    spec fn destroy_requires(&self, x: T) -> bool;

    /// `purged` is a possible report of destroying the lineage of `x`.
    spec fn destroy_ensures(&self, x: T, purged: bool) -> bool;

    /// Returns whether the lineage was actually purged.
    fn destroy(&self, other: &T) -> (purged: bool)
        requires
            self.destroy_requires(*other),
        ensures
            self.destroy_ensures(*other, purged),
    ;
}

/// A value that can revoke its own lineage, consuming itself.
pub trait Corruptible: Sized {
    spec fn corrupt_requires(&self) -> bool;

    spec fn corrupt_ensures(&self, purged: bool) -> bool;

    /// Returns whether the lineage was actually purged.
    fn corrupt(self) -> (purged: bool)
        requires
            self.corrupt_requires(),
        ensures
            self.corrupt_ensures(purged),
    ;
}

/// Every procedure on a state is a destroyer that always reports a purge.
impl<F, T> Destroyer<T> for F where F: Fn(&T) {
    open spec fn destroy_requires(&self, x: T) -> bool {
        call_requires(*self, (&x,))
    }

    open spec fn destroy_ensures(&self, x: T, purged: bool) -> bool {
        purged && call_ensures(*self, (&x,), ())
    }

    fn destroy(&self, other: &T) -> (purged: bool) {
        (self)(other);
        true
    }
}

/// The outcome of one rotation attempt on a [`Fragile`].
pub enum Outcome<S> {
    /// The successor passed validation.
    Advanced(S),
    /// The inner mutation could not advance; nothing was destroyed.
    Halted,
    /// The successor was rejected and its lineage destroyed; `purged` is the
    /// destroyer's report.
    Revoked { purged: bool },
}

/// A mutable whose successors must pass a validator; a rejected successor has
/// its whole lineage destroyed.
#[derive(Debug, Copy, PartialEq, Eq, PartialOrd, Ord, Hash)]
pub struct Fragile<D, V, Q, S>(pub D, pub V, pub Q, pub PhantomData<S>);

impl<D, V, Q, S> Fragile<D, V, Q, S> {
    pub(crate) fn new(d: D, v: V, q: Q) -> (r: Fragile<D, V, Q, S>)
        ensures
            r.0 == d,
            r.1 == v,
            r.2 == q,
    {
        Fragile(d, v, q, PhantomData)
    }
}

impl<D: Clone, V: Clone, Q: Clone, S> Clone for Fragile<D, V, Q, S> {
    fn clone(&self) -> (r: Self)
        ensures
            cloned(self.0, r.0),
            cloned(self.1, r.1),
            cloned(self.2, r.2),
    {
        Fragile(self.0.clone(), self.1.clone(), self.2.clone(), PhantomData)
    }
}

impl<D, V, Q: Current<S>, S> Fragile<D, V, Q, S> {
    pub fn inner(&self) -> (r: &S)
        ensures
            *r == self.2.current(),
    {
        self.2.current_ref()
    }
}

impl<D, V, Q: Current<S>, S> Current<S> for Fragile<D, V, Q, S> {
    open spec fn current(&self) -> S {
        self.2.current()
    }

    fn current_ref(&self) -> (r: &S) {
        self.2.current_ref()
    }
}

impl<D: Destroyer<S>, V: Validator<S>, Q: Mutable + Current<S> + Clone, S> Fragile<D, V, Q, S> {
    /// What a caller must establish before an attempt: every copy of the held
    /// mutable can be advanced, and each successor can be judged and destroyed.
    pub open spec fn attempt_requires(&self) -> bool {
        forall|c: Q| #[trigger]
            cloned(self.2, c) ==> {
                &&& c.mutate_requires()
                &&& forall|x: Q| #[trigger]
                    c.mutate_ensures(Some(x)) ==> {
                        &&& self.1.validation_requires(x.current())
                        &&& self.0.destroy_requires(x.current())
                    }
            }
    }

    /// `r` is what one attempt yields when the copy `c` of the held mutable is advanced.
    pub open spec fn step_from(&self, c: Q, r: Outcome<Self>) -> bool {
        match r {
            Outcome::Advanced(n) => {
                &&& n.0 == self.0
                &&& n.1 == self.1
                &&& c.mutate_ensures(Some(n.2))
                &&& self.1.validation_ensures(n.2.current(), true)
            },
            Outcome::Halted => c.mutate_ensures(None),
            Outcome::Revoked { purged } => exists|x: Q| #[trigger]
                c.mutate_ensures(Some(x)) && self.1.validation_ensures(x.current(), false)
                    && self.0.destroy_ensures(x.current(), purged),
        }
    }

    pub open spec fn attempt_ensures(&self, r: Outcome<Self>) -> bool {
        exists|c: Q| #[trigger] cloned(self.2, c) && self.step_from(c, r)
    }

    /// Advances the held mutable; destroys the lineage of a rejected successor.
    pub fn attempt(self) -> (r: Outcome<Self>)
        requires
            self.attempt_requires(),
        ensures
            self.attempt_ensures(r),
    {
        let Fragile(d, v, q, _) = self;
        let c = q.clone();
        assert(cloned(q, c));
        match c.mutate() {
            Some(x) => {
                if v.is_valid(x.current_ref()) {
                    Outcome::Advanced(Fragile::new(d, v, x))
                } else {
                    let purged = d.destroy(x.current_ref());
                    Outcome::Revoked { purged }
                }
            },
            None => Outcome::Halted,
        }
    }
}

impl<D: Destroyer<S>, V: Validator<S>, Q: Mutable + Current<S> + Clone, S> Mutable for Fragile<
    D,
    V,
    Q,
    S,
> {
    open spec fn mutate_requires(&self) -> bool {
        self.attempt_requires()
    }

    open spec fn mutate_ensures(&self, next: Option<Self>) -> bool {
        match next {
            Some(n) => self.attempt_ensures(Outcome::Advanced(n)),
            None => {
                ||| self.attempt_ensures(Outcome::Halted)
                ||| exists|p: bool| #[trigger] self.attempt_ensures(Outcome::Revoked { purged: p })
            },
        }
    }

    /// Returns `None` when the inner mutation fails, or when the successor is
    /// rejected, after destroying its lineage.
    fn mutate(self) -> (next: Option<Self>) {
        let ghost pre = self;
        match self.attempt() {
            Outcome::Advanced(n) => Some(n),
            Outcome::Halted => None,
            Outcome::Revoked { purged } => {
                assert(pre.attempt_ensures(Outcome::Revoked { purged }));
                None
            },
        }
    }
}

impl<D, V: Validator<S>, Q: Current<S>, S> Validatable for Fragile<D, V, Q, S> {
    open spec fn validity_requires(&self) -> bool {
        self.1.validation_requires(self.2.current())
    }

    open spec fn validity_ensures(&self, ok: bool) -> bool {
        self.1.validation_ensures(self.2.current(), ok)
    }

    fn is_valid(&self) -> (ok: bool) {
        self.1.is_valid(self.2.current_ref())
    }
}

impl<D: Destroyer<S>, V, Q: Current<S>, S> Corruptible for Fragile<D, V, Q, S> {
    open spec fn corrupt_requires(&self) -> bool {
        self.0.destroy_requires(self.2.current())
    }

    open spec fn corrupt_ensures(&self, purged: bool) -> bool {
        self.0.destroy_ensures(self.2.current(), purged)
    }

    /// Destroys the lineage of the held state.
    fn corrupt(self) -> (purged: bool) {
        self.0.destroy(self.2.current_ref())
    }
}

/// Wraps a mutable into a [`Fragile`] guarded by `valid` and destroyed by `self`.
pub trait MakeFragile<V, Q, S>: Sized {
    fn make_fragile(self, valid: V, value: Q) -> (r: Fragile<Self, V, Q, S>)
        ensures
            r.0 == self,
            r.1 == valid,
            r.2 == value,
    ;
}

impl<D: Destroyer<S>, V: Validator<S>, Q: Mutable + Current<S>, S> MakeFragile<V, Q, S> for D {
    fn make_fragile(self, valid: V, value: Q) -> (r: Fragile<Self, V, Q, S>) {
        Fragile::new(self, valid, value)
    }
}

/// A fragile whose mutation succeeds with `x`, a value the validator rejects,
/// yields `None`, and its one attempt revokes: the destroyer is handed `x`,
/// and its report is the one returned.
pub proof fn lemma_fragile_revokes<
    D: Destroyer<S>,
    V: Validator<S>,
    Q: Mutable + Current<S> + Clone,
    S,
>(m: Fragile<D, V, Q, S>, x: Q)
    requires
        forall|c: Q, r: Option<Q>| #[trigger] cloned(m.2, c) && #[trigger] c.mutate_ensures(r) ==> r
            == Some(x),
        forall|ok: bool| #[trigger] m.1.validation_ensures(x.current(), ok) ==> !ok,
    ensures
        forall|r: Outcome<Fragile<D, V, Q, S>>| #[trigger]
            m.attempt_ensures(r) ==> (r matches Outcome::Revoked { purged } && m.0.destroy_ensures(
                x.current(),
                purged,
            )),
        forall|r: Option<Fragile<D, V, Q, S>>| #[trigger] m.mutate_ensures(r) ==> r is None,
{
    assert forall|r: Outcome<Fragile<D, V, Q, S>>| #[trigger] m.attempt_ensures(r) implies (r matches Outcome::Revoked {
        purged,
    } && m.0.destroy_ensures(x.current(), purged)) by {
        let c = choose|c: Q| #[trigger] cloned(m.2, c) && m.step_from(c, r);
        assert(c.mutate_ensures(None) ==> None::<Q> == Some(x));
        match r {
            Outcome::Advanced(n) => {
                assert(Some(n.2) == Some(x));
                assert(m.1.validation_ensures(x.current(), true));
            },
            Outcome::Halted => {},
            Outcome::Revoked { purged } => {
                let y = choose|y: Q| #[trigger]
                    c.mutate_ensures(Some(y)) && m.1.validation_ensures(y.current(), false)
                        && m.0.destroy_ensures(y.current(), purged);
                assert(Some(y) == Some(x));
            },
        }
    }
    assert forall|r: Option<Fragile<D, V, Q, S>>| #[trigger] m.mutate_ensures(r) implies r is None by {
        if let Some(n) = r {
            assert(m.attempt_ensures(Outcome::Advanced(n)));
        }
    }
}

/// A fragile whose mutation fails yields `None` without handing anything to
/// the destroyer.
pub proof fn lemma_fragile_halts<D: Destroyer<S>, V: Validator<S>, Q: Mutable + Current<S> + Clone, S>(
    m: Fragile<D, V, Q, S>,
)
    requires
        forall|c: Q, r: Option<Q>| #[trigger] cloned(m.2, c) && #[trigger] c.mutate_ensures(r) ==> r
            is None,
    ensures
        forall|r: Outcome<Fragile<D, V, Q, S>>| #[trigger] m.attempt_ensures(r) ==> r is Halted,
        forall|r: Option<Fragile<D, V, Q, S>>| #[trigger] m.mutate_ensures(r) ==> r is None,
{
    assert forall|r: Outcome<Fragile<D, V, Q, S>>| #[trigger] m.attempt_ensures(r) implies r is Halted by {
        let c = choose|c: Q| #[trigger] cloned(m.2, c) && m.step_from(c, r);
        match r {
            Outcome::Advanced(n) => {
                assert(c.mutate_ensures(Some(n.2)));
            },
            Outcome::Halted => {},
            Outcome::Revoked { purged } => {
                let y = choose|y: Q| #[trigger]
                    c.mutate_ensures(Some(y)) && m.1.validation_ensures(y.current(), false)
                        && m.0.destroy_ensures(y.current(), purged);
            },
        }
    }
    assert forall|r: Option<Fragile<D, V, Q, S>>| #[trigger] m.mutate_ensures(r) implies r is None by {
        if let Some(n) = r {
            assert(m.attempt_ensures(Outcome::Advanced(n)));
        }
    }
}

} // verus!
