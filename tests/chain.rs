use life::chain::{ChainStore, Lineage};
use life::Error;

fn store_with_lineage(token: u128, chain: u128, at: i64) -> ChainStore {
    let mut s = ChainStore::new();
    assert_eq!(s.issue(token, chain, at), Ok(token));
    s
}

#[test]
fn get_unknown_token_is_not_found() {
    let s = ChainStore::new();
    assert_eq!(s.get(1), Err(Error::LineageNotFound));
}

#[test]
fn issue_starts_lineage() {
    let s = store_with_lineage(10, 1, 50);
    assert_eq!(s.get(10), Ok(Lineage { chain_id: 1, earliest: 50, latest: 50, count: 1 }));
}

#[test]
fn issue_refuses_known_token_or_chain() {
    let mut s = store_with_lineage(10, 1, 50);
    assert_eq!(s.issue(10, 2, 60), Err(Error::Create));
    assert_eq!(s.issue(11, 1, 60), Err(Error::Create));
    assert_eq!(s.get(11), Err(Error::LineageNotFound));
}

#[test]
fn append_aggregates_lineage() {
    let mut s = store_with_lineage(10, 1, 50);
    assert_eq!(s.append(10, 11, 70), Ok(11));
    assert_eq!(s.append(11, 12, 60), Ok(12));
    let l = Lineage { chain_id: 1, earliest: 50, latest: 70, count: 3 };
    assert_eq!(s.get(10), Ok(l));
    assert_eq!(s.get(12), Ok(l));
}

#[test]
fn append_refuses_unknown_or_used_token() {
    let mut s = store_with_lineage(10, 1, 50);
    assert_eq!(s.append(99, 11, 60), Err(Error::LineageNotFound));
    assert_eq!(s.append(10, 10, 60), Err(Error::Create));
    assert_eq!(s.get(10).unwrap().count, 1);
}

#[test]
fn delete_chain_is_scoped_and_idempotent() {
    let mut s = store_with_lineage(10, 1, 0);
    assert_eq!(s.issue(20, 2, 5), Ok(20));
    assert_eq!(s.append(10, 11, 7), Ok(11));
    assert_eq!(s.append(20, 21, 9), Ok(21));
    s.delete_chain(1);
    assert_eq!(s.get(10), Err(Error::LineageNotFound));
    assert_eq!(s.get(11), Err(Error::LineageNotFound));
    let other = Lineage { chain_id: 2, earliest: 5, latest: 9, count: 2 };
    assert_eq!(s.get(21), Ok(other));
    s.delete_chain(1);
    assert_eq!(s.get(20), Ok(other));
    assert_eq!(s.get(21), Ok(other));
}

#[test]
fn rotate_appends_in_band() {
    let mut s = store_with_lineage(10, 1, 0);
    assert_eq!(s.rotate(10, 11, 4, 100, 2000), Ok(11));
    assert_eq!(s.get(11), Ok(Lineage { chain_id: 1, earliest: 0, latest: 4, count: 2 }));
}

#[test]
fn rotate_unknown_token_is_not_found() {
    let mut s = store_with_lineage(10, 1, 0);
    assert_eq!(s.rotate(5, 11, 4, 100, 2000), Err(Error::LineageNotFound));
    assert_eq!(s.get(10).unwrap().count, 1);
}

#[test]
fn scenario_slow_rotation_destroys_lineage() {
    let mut s = store_with_lineage(10, 1, 0);
    assert_eq!(s.rotate(10, 11, 1800, 100, 2000), Err(Error::InvalidToken));
    assert_eq!(s.get(10), Err(Error::LineageNotFound));
}

#[test]
fn scenario_ten_rotations_in_five_seconds() {
    let mut s = store_with_lineage(100, 1, 0);
    let mut token: u128 = 100;
    let times: [i64; 10] = [0, 1, 2, 2, 3, 3, 4, 4, 5, 5];
    for (k, t) in times.iter().enumerate() {
        let fresh = 101 + k as u128;
        assert_eq!(s.rotate(token, fresh, *t, 100, 2000), Ok(fresh));
        token = fresh;
    }
    // the last rotation saw ten records over five seconds: exactly 2.0
    assert_eq!(s.get(token).unwrap().count, 11);
}

#[test]
fn scenario_theft_containment() {
    let mut s = store_with_lineage(10, 1, 0);
    let mut other = ChainStore::new();
    assert_eq!(other.issue(50, 2, 0), Ok(50));
    assert_eq!(s.issue(50, 2, 0), Ok(50));
    // the holder rotates at 100 s: one record over 100 s
    assert_eq!(s.rotate(10, 11, 100, 0, 15), Ok(11));
    // the attacker replays the stale token within the same second: the rate doubles
    assert_eq!(s.rotate(10, 12, 100, 0, 15), Err(Error::InvalidToken));
    // the whole lineage is gone for both
    assert_eq!(s.rotate(11, 13, 101, 0, 15), Err(Error::LineageNotFound));
    assert_eq!(s.rotate(10, 14, 101, 0, 15), Err(Error::LineageNotFound));
    // an unrelated lineage is untouched
    assert_eq!(s.get(50), Ok(Lineage { chain_id: 2, earliest: 0, latest: 0, count: 1 }));
    assert_eq!(other.get(50), s.get(50));
}
