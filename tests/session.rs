use std::cell::Cell;
use std::collections::HashMap;

use life::{
    mutate_in_pool, mutate_in_pool_with_motal, mutate_in_pool_with_validator, Current, Error,
    Mortal, Mutable, Store,
};

#[derive(Clone, Debug, PartialEq)]
struct Session<'a> {
    count: i32,
    purgeable: bool,
    deaths: &'a Cell<u32>,
}

// Outside the verifier the specification functions of the library's traits are
// ordinary methods; these permissive ones stand for them.
impl<'a> Mutable for Session<'a> {
    fn mutate_requires(&self) -> bool {
        true
    }

    fn mutate_ensures(&self, _: Option<Self>) -> bool {
        true
    }

    fn mutate(self) -> Option<Self> {
        if self.count < 0 {
            None
        } else {
            Some(Session { count: self.count + 1, ..self })
        }
    }
}

impl<'a> Current<i32> for Session<'a> {
    fn current(&self) -> i32 {
        self.count
    }

    fn current_ref(&self) -> &i32 {
        &self.count
    }
}

impl<'a> Mortal for Session<'a> {
    fn die_requires(&self) -> bool {
        true
    }

    fn die_ensures(&self, _: bool) -> bool {
        true
    }

    fn die(self) -> bool {
        self.deaths.set(self.deaths.get() + 1);
        self.purgeable
    }
}

struct Pool<'a>(HashMap<u32, Session<'a>>);

impl<'a> Store<u32, Session<'a>> for Pool<'a> {
    fn get_ensures(&self, _: u32, _: Option<Session<'a>>) -> bool {
        true
    }

    fn get(&self, key: &u32) -> Option<Session<'a>> {
        self.0.get(key).cloned()
    }
}

fn below_three(v: &i32) -> bool {
    *v < 3
}

fn pool(deaths: &Cell<u32>) -> Pool<'_> {
    let mut m = HashMap::new();
    m.insert(1, Session { count: 0, purgeable: true, deaths });
    m.insert(2, Session { count: 5, purgeable: true, deaths });
    m.insert(3, Session { count: -1, purgeable: true, deaths });
    m.insert(4, Session { count: 7, purgeable: false, deaths });
    Pool(m)
}

#[test]
fn mutate_in_pool_advances_found_state() {
    let deaths = Cell::new(0);
    let p = pool(&deaths);
    assert_eq!(mutate_in_pool(&p, &1).map(|s| s.count), Some(1));
    assert_eq!(mutate_in_pool(&p, &2).map(|s| s.count), Some(6));
    assert!(mutate_in_pool(&p, &3).is_none());
    assert!(mutate_in_pool(&p, &9).is_none());
}

#[test]
fn mutate_in_pool_with_validator_filters_successor() {
    let deaths = Cell::new(0);
    let p = pool(&deaths);
    assert_eq!(mutate_in_pool_with_validator(&p, &below_three, &1).map(|s| s.count), Some(1));
    assert!(mutate_in_pool_with_validator(&p, &below_three, &2).is_none());
    assert!(mutate_in_pool_with_validator(&p, &below_three, &3).is_none());
    assert!(mutate_in_pool_with_validator(&p, &below_three, &9).is_none());
}

#[test]
fn mutate_in_pool_with_motal_ends_rejected_lineage() {
    let deaths = Cell::new(0);
    let p = pool(&deaths);
    assert_eq!(mutate_in_pool_with_motal(&p, &below_three, &1).map(|s| s.count), Ok(1));
    assert_eq!(deaths.get(), 0);
    assert_eq!(
        mutate_in_pool_with_motal(&p, &below_three, &2).map(|s| s.count),
        Err(Error::InvalidToken)
    );
    assert_eq!(deaths.get(), 1);
    assert_eq!(
        mutate_in_pool_with_motal(&p, &below_three, &3).map(|s| s.count),
        Err(Error::InvalidToken)
    );
    assert_eq!(deaths.get(), 1);
    assert_eq!(
        mutate_in_pool_with_motal(&p, &below_three, &9).map(|s| s.count),
        Err(Error::LineageNotFound)
    );
    assert_eq!(deaths.get(), 1);
}

#[test]
fn mutate_in_pool_with_motal_reports_failed_revocation() {
    let deaths = Cell::new(0);
    let p = pool(&deaths);
    assert_eq!(
        mutate_in_pool_with_motal(&p, &below_three, &4).map(|s| s.count),
        Err(Error::RevocationFailed)
    );
    assert_eq!(deaths.get(), 1);
}
