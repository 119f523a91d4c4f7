//! Mutations: possibly-terminal transforms of a state into its successor.
use vstd::prelude::*;

verus! {

/// Read access to the state that a value carries.
pub trait Current<R> {
    /// The carried state.
    spec fn current(&self) -> R;

    fn current_ref(&self) -> (r: &R)
        ensures
            *r == self.current(),
    ;
}

/// A transform from a state to its successor; `None` means the state cannot advance.
pub trait Mutator<T>: Sized {
    /// What a caller must establish before handing `from` to the transform.
    spec fn mutation_requires(&self, from: T) -> bool;

    /// `to` is a possible outcome of the transform on `from`.
    spec fn mutation_ensures(&self, from: T, to: Option<T>) -> bool;

    fn mutation(&self, from: T) -> (r: Option<T>)
        requires
            self.mutation_requires(from),
        ensures
            self.mutation_ensures(from, r),
    ;

    /// Binds the transform to a starting value.
    fn make_mutable(self, v: T) -> (r: IntoMutable<Self, T>)
        ensures
            r.mutator() == self,
            r.current() == v,
    {
        IntoMutable::new(self, v)
    }
}

/// A value that can be advanced to its successor (by default, a value of its
/// own type), consuming itself.
pub trait Mutable<T = Self>: Sized {
    spec fn mutate_requires(&self) -> bool;

    /// `next` is a possible outcome of `mutate` on `self`.
    spec fn mutate_ensures(&self, next: Option<T>) -> bool;

    fn mutate(self) -> (next: Option<T>)
        requires
            self.mutate_requires(),
        ensures
            self.mutate_ensures(next),
    ;
}

/// Every total function is a mutator that never fails.
impl<F, T> Mutator<T> for F where F: Fn(T) -> T {
    open spec fn mutation_requires(&self, from: T) -> bool {
        call_requires(*self, (from,))
    }

    open spec fn mutation_ensures(&self, from: T, to: Option<T>) -> bool {
        match to {
            Some(t) => call_ensures(*self, (from,), t),
            None => false,
        }
    }

    fn mutation(&self, from: T) -> (r: Option<T>) {
        Some((self)(from))
    }
}

/// A mutator together with the value it currently holds.
#[derive(Debug, Copy, PartialEq, Eq, PartialOrd, Ord, Hash)]
pub struct IntoMutable<M, T>(pub M, pub T);

impl<M, T> IntoMutable<M, T> {
    pub open spec fn mutator(&self) -> M {
        self.0
    }

    pub fn inner(&self) -> (r: &T)
        ensures
            *r == self.current(),
    {
        &self.1
    }

    pub(crate) fn new(m: M, t: T) -> (r: IntoMutable<M, T>)
        ensures
            r.mutator() == m,
            r.current() == t,
    {
        IntoMutable(m, t)
    }
}

impl<M: Clone, T: Clone> Clone for IntoMutable<M, T> {
    fn clone(&self) -> (r: Self)
        ensures
            cloned(self.0, r.0),
            cloned(self.1, r.1),
    {
        IntoMutable(self.0.clone(), self.1.clone())
    }
}

impl<M, T> Current<T> for IntoMutable<M, T> {
    open spec fn current(&self) -> T {
        self.1
    }

    fn current_ref(&self) -> (r: &T) {
        &self.1
    }
}

impl<M: Mutator<T>, T> Mutable for IntoMutable<M, T> {
    open spec fn mutate_requires(&self) -> bool {
        self.0.mutation_requires(self.1)
    }

    open spec fn mutate_ensures(&self, next: Option<Self>) -> bool {
        match next {
            Some(n) => n.0 == self.0 && self.0.mutation_ensures(self.1, Some(n.1)),
            None => self.0.mutation_ensures(self.1, None),
        }
    }

    fn mutate(self) -> (next: Option<Self>) {
        let IntoMutable(m, t) = self;
        match m.mutation(t) {
            Some(x) => Some(IntoMutable::new(m, x)),
            None => None,
        }
    }
}

} // verus!
