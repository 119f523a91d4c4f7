//! Rotation of states held in a store.
use vstd::prelude::*;
use crate::error::Error;
use crate::mutation::{Current, Mutable};
use crate::validation::Validator;

verus! {

/// A store that resolves keys to mutable states.
pub trait Store<K, V> {
    /// `r` is a possible answer of the store for `key`.
    spec fn get_ensures(&self, key: K, r: Option<V>) -> bool;

    fn get(&self, key: &K) -> (r: Option<V>)
        ensures
            self.get_ensures(*key, r),
    ;
}

/// A state that can end its own lineage.
pub trait Mortal: Sized {
    spec fn die_requires(&self) -> bool;

    /// `purged` is a possible report of ending the lineage of `self`.
    spec fn die_ensures(&self, purged: bool) -> bool;

    /// Ends the lineage of `self`; returns whether it was actually purged.
    fn die(self) -> (purged: bool)
        requires
            self.die_requires(),
        ensures
            self.die_ensures(purged),
    ;
}

/// Whether every state that `set` may return for `key` can be advanced.
pub open spec fn pool_requires<K, V: Mutable, S: Store<K, V>>(set: &S, key: K) -> bool {
    forall|v: V| #[trigger] set.get_ensures(key, Some(v)) ==> v.mutate_requires()
}

/// Looks `key` up and advances the state found.
pub fn mutate_in_pool<K, V: Mutable, S: Store<K, V>>(set: &S, key: &K) -> (r: Option<V>)
    requires
        pool_requires(set, *key),
    ensures
        match r {
            Some(n) => exists|v: V| #[trigger]
                set.get_ensures(*key, Some(v)) && v.mutate_ensures(Some(n)),
            None => {
                ||| set.get_ensures(*key, None)
                ||| exists|v: V| #[trigger] set.get_ensures(*key, Some(v)) && v.mutate_ensures(None)
            },
        },
{
    match set.get(key) {
        Some(m) => m.mutate(),
        None => None,
    }
}

/// Whether every successor of every state that `set` may return for `key` can be judged by `val`.
pub open spec fn pool_validator_requires<K, T, V: Mutable + Current<T>, S: Store<K, V>, W: Validator<T>>(
    set: &S,
    val: &W,
    key: K,
) -> bool {
    forall|v: V| #[trigger]
        set.get_ensures(key, Some(v)) ==> {
            &&& v.mutate_requires()
            &&& forall|a: V| #[trigger] v.mutate_ensures(Some(a)) ==> val.validation_requires(a.current())
        }
}

/// `a` is a successor, found through `set` under `key`, on which `val` may give the verdict `ok`.
pub open spec fn pool_candidate<K, T, V: Mutable + Current<T>, S: Store<K, V>, W: Validator<T>>(
    set: &S,
    val: &W,
    key: K,
    a: V,
    ok: bool,
) -> bool {
    exists|v: V| #[trigger]
        set.get_ensures(key, Some(v)) && v.mutate_ensures(Some(a)) && val.validation_ensures(
            a.current(),
            ok,
        )
}

/// `None` is a possible answer of the lookup under `key`, or of the mutation of what it found.
pub open spec fn pool_halts<K, V: Mutable, S: Store<K, V>>(set: &S, key: K) -> bool {
    ||| set.get_ensures(key, None)
    ||| exists|v: V| #[trigger] set.get_ensures(key, Some(v)) && v.mutate_ensures(None)
}

/// Looks `key` up, advances the state found, and keeps the successor only if `val` accepts it.
pub fn mutate_in_pool_with_validator<
    K,
    T,
    V: Mutable + Current<T>,
    S: Store<K, V>,
    W: Validator<T>,
>(set: &S, val: &W, key: &K) -> (r: Option<V>)
    requires
        pool_validator_requires(set, val, *key),
    ensures
        match r {
            Some(a) => pool_candidate(set, val, *key, a, true),
            None => pool_halts(set, *key) || exists|a: V| #[trigger]
                pool_candidate(set, val, *key, a, false),
        },
{
    match set.get(key) {
        Some(m) => {
            let ghost v = m;
            match m.mutate() {
                Some(a) => {
                    if val.is_valid(a.current_ref()) {
                        assert(set.get_ensures(*key, Some(v)));
                        Some(a)
                    } else {
                        assert(pool_candidate(set, val, *key, a, false));
                        None
                    }
                },
                None => {
                    assert(set.get_ensures(*key, Some(v)));
                    None
                },
            }
        },
        None => None,
    }
}

/// Looks `key` up, advances the state found, and keeps the successor only if
/// `val` accepts it; a rejected successor ends its lineage.
pub fn mutate_in_pool_with_motal<
    K,
    T,
    V: Mutable + Current<T> + Mortal,
    S: Store<K, V>,
    W: Validator<T>,
>(set: &S, val: &W, key: &K) -> (r: Result<V, Error>)
    requires
        pool_validator_requires(set, val, *key),
        forall|a: V| #[trigger] pool_candidate(set, val, *key, a, false) ==> a.die_requires(),
    ensures
        match r {
            Ok(a) => pool_candidate(set, val, *key, a, true),
            Err(Error::LineageNotFound) => set.get_ensures(*key, None),
            Err(Error::InvalidToken) => {
                ||| exists|v: V| #[trigger] set.get_ensures(*key, Some(v)) && v.mutate_ensures(None)
                ||| exists|a: V| #[trigger] pool_candidate(set, val, *key, a, false) && a.die_ensures(true)
            },
            Err(Error::RevocationFailed) => exists|a: V| #[trigger]
                pool_candidate(set, val, *key, a, false) && a.die_ensures(false),
            Err(_) => false,
        },
{
    match set.get(key) {
        Some(m) => {
            let ghost v = m;
            match m.mutate() {
                Some(a) => {
                    if val.is_valid(a.current_ref()) {
                        assert(set.get_ensures(*key, Some(v)));
                        Ok(a)
                    } else {
                        let ghost dead = a;
                        assert(pool_candidate(set, val, *key, a, false));
                        if a.die() {
                            assert(dead.die_ensures(true));
                            Err(Error::InvalidToken)
                        } else {
                            assert(dead.die_ensures(false));
                            Err(Error::RevocationFailed)
                        }
                    }
                },
                None => {
                    assert(set.get_ensures(*key, Some(v)));
                    Err(Error::InvalidToken)
                },
            }
        },
        None => Err(Error::LineageNotFound),
    }
}

} // verus!
