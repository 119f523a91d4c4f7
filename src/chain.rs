//! A store of rotation records, grouped into lineages by a chain identifier.
use vstd::prelude::*;
use crate::claims::{band_admits, within_band};
use crate::error::Error;

verus! {

/// One issued credential: its bearer token, its lineage, and when it was made.
#[derive(Debug, Clone, Copy, PartialEq, Eq, Hash)]
pub struct Record {
    pub session_id: u128,
    pub chain_id: u128,
    pub created_at: i64,
}

/// The aggregate of all records of one lineage.
#[derive(Debug, Clone, Copy, PartialEq, Eq, Hash)]
pub struct Lineage {
    pub chain_id: u128,
    pub earliest: i64,
    pub latest: i64,
    pub count: u64,
}

/// The lineage of the last record in `s` whose token is `token`.
pub open spec fn chain_of(s: Seq<Record>, token: u128) -> Option<u128>
    decreases s.len(),
{
    if s.len() == 0 {
        None
    } else if s.last().session_id == token {
        Some(s.last().chain_id)
    } else {
        chain_of(s.drop_last(), token)
    }
}

/// The aggregate of the records in `s` that belong to `chain`, if there are any.
pub open spec fn lineage_of(s: Seq<Record>, chain: u128) -> Option<Lineage>
    decreases s.len(),
{
    if s.len() == 0 {
        None
    } else {
        let r = s.last();
        let rest = lineage_of(s.drop_last(), chain);
        if r.chain_id != chain {
            rest
        } else {
            match rest {
                None => Some(Lineage { chain_id: chain, earliest: r.created_at, latest: r.created_at, count: 1 }),
                Some(l) => Some(
                    Lineage {
                        chain_id: chain,
                        earliest: if r.created_at < l.earliest { r.created_at } else { l.earliest },
                        latest: if r.created_at > l.latest { r.created_at } else { l.latest },
                        count: (l.count + 1) as u64,
                    },
                ),
            }
        }
    }
}

/// `s` without the records of `chain`, the others kept in order.
pub open spec fn without_chain(s: Seq<Record>, chain: u128) -> Seq<Record>
    decreases s.len(),
{
    if s.len() == 0 {
        s
    } else if s.last().chain_id == chain {
        without_chain(s.drop_last(), chain)
    } else {
        without_chain(s.drop_last(), chain).push(s.last())
    }
}

/// A lineage holds at most as many records as the store.
pub proof fn lemma_lineage_count(s: Seq<Record>, chain: u128)
    requires
        s.len() <= u64::MAX,
    ensures
        lineage_of(s, chain) matches Some(l) ==> 1 <= l.count <= s.len() && l.chain_id == chain,
    decreases s.len(),
{
    if s.len() > 0 {
        lemma_lineage_count(s.drop_last(), chain);
    }
}

/// A token that resolves to a chain resolves to a non-empty lineage.
pub proof fn lemma_resolved_lineage(s: Seq<Record>, token: u128)
    ensures
        chain_of(s, token) matches Some(c) ==> lineage_of(s, c) is Some,
    decreases s.len(),
{
    if s.len() > 0 {
        lemma_resolved_lineage(s.drop_last(), token);
    }
}

/// A prefix of one more element, with its last element dropped, is the shorter prefix.
proof fn lemma_prefix_step(s: Seq<Record>, i: int)
    requires
        0 <= i < s.len(),
    ensures
        s.subrange(0, i + 1).drop_last() == s.subrange(0, i),
        s.subrange(0, i + 1).last() == s[i],
{
    assert(s.subrange(0, i + 1).drop_last() =~= s.subrange(0, i));
}

/// The store after, and the answer of, a rotation of `token` at `now` that
/// hands out `new_token` and checks the lineage against `[min_milli, max_milli]`.
pub open spec fn rotation_effect(
    s: Seq<Record>,
    token: u128,
    new_token: u128,
    now: i64,
    min_milli: u32,
    max_milli: u32,
) -> (Seq<Record>, Result<u128, Error>) {
    match chain_of(s, token) {
        None => (s, Err(Error::LineageNotFound)),
        Some(c) => {
            let l = lineage_of(s, c).unwrap();
            if !lineage_admitted(l, now, min_milli, max_milli) {
                (without_chain(s, c), Err(Error::InvalidToken))
            } else if chain_of(s, new_token) is Some {
                (s, Err(Error::Create))
            } else {
                (s.push(Record { session_id: new_token, chain_id: c, created_at: now }), Ok(new_token))
            }
        },
    }
}

/// Deleting a lineage leaves none of its records, leaves every other lineage
/// and every token of another lineage as they were, and deleting it again
/// changes nothing.
pub proof fn lemma_delete_chain_scoped(s: Seq<Record>, chain: u128, other: u128, token: u128)
    requires
        other != chain,
    ensures
        lineage_of(without_chain(s, chain), chain) is None,
        lineage_of(without_chain(s, chain), other) == lineage_of(s, other),
        chain_of(s, token) != Some(chain) ==> chain_of(without_chain(s, chain), token) == chain_of(
            s,
            token,
        ),
        without_chain(without_chain(s, chain), chain) == without_chain(s, chain),
    decreases s.len(),
{
    if s.len() > 0 {
        let rest = s.drop_last();
        lemma_delete_chain_scoped(rest, chain, other, token);
        if s.last().chain_id != chain {
            let w = without_chain(rest, chain);
            assert(w.push(s.last()).drop_last() =~= w);
        }
    }
}

/// What a store does with a resolved lineage when one of its tokens is rotated.
#[derive(Debug, Clone, Copy, PartialEq, Eq, Hash)]
pub enum Step {
    /// Add a fresh token to the lineage.
    Append { chain_id: u128 },
    /// Delete every record of the lineage.
    Revoke { chain_id: u128 },
}

/// Whether the density of `l` at `now` lies in `[min_milli, max_milli]`
/// thousandths of a rotation per second.
pub open spec fn lineage_admitted(l: Lineage, now: i64, min_milli: u32, max_milli: u32) -> bool {
    within_band(min_milli as int, max_milli as int, l.count as int, now - l.earliest)
}

/// Decides the rotation of a token whose lineage is `l`: append while the
/// lineage's density at `now` stays in the band, revoke it otherwise.
pub fn next_step(l: &Lineage, now: i64, min_milli: u32, max_milli: u32) -> (r: Step)
    ensures
        r == (if lineage_admitted(*l, now, min_milli, max_milli) {
            Step::Append { chain_id: l.chain_id }
        } else {
            Step::Revoke { chain_id: l.chain_id }
        }),
{
    if band_admits(l.count as i128, now as i128 - l.earliest as i128, min_milli, max_milli) {
        Step::Append { chain_id: l.chain_id }
    } else {
        Step::Revoke { chain_id: l.chain_id }
    }
}

/// Records of rotations, grouped into lineages.
pub struct ChainStore {
    records: Vec<Record>,
}

impl View for ChainStore {
    type V = Seq<Record>;

    closed spec fn view(&self) -> Seq<Record> {
        self.records@
    }
}

impl ChainStore {
    /// An empty store.
    pub fn new() -> (r: ChainStore)
        ensures
            r@ == Seq::<Record>::empty(),
    {
        ChainStore { records: Vec::new() }
    }

    /// The lineage that `token` belongs to.
    fn find_chain(&self, token: u128) -> (r: Option<u128>)
        ensures
            r == chain_of(self@, token),
    {
        let mut found: Option<u128> = None;
        let mut i: usize = 0;
        while i < self.records.len()
            invariant
                i <= self.records.len(),
                found == chain_of(self@.subrange(0, i as int), token),
            decreases self.records.len() - i,
        {
            proof {
                lemma_prefix_step(self@, i as int);
            }
            if self.records[i].session_id == token {
                found = Some(self.records[i].chain_id);
            }
            i += 1;
        }
        assert(self@.subrange(0, self@.len() as int) =~= self@);
        found
    }

    /// The aggregate of the records of `chain`.
    fn aggregate(&self, chain: u128) -> (r: Option<Lineage>)
        ensures
            r == lineage_of(self@, chain),
    {
        let mut acc: Option<Lineage> = None;
        let mut i: usize = 0;
        while i < self.records.len()
            invariant
                i <= self.records.len(),
                acc == lineage_of(self@.subrange(0, i as int), chain),
            decreases self.records.len() - i,
        {
            proof {
                lemma_prefix_step(self@, i as int);
                lemma_lineage_count(self@.subrange(0, i as int), chain);
            }
            let r = self.records[i];
            if r.chain_id == chain {
                acc = match acc {
                    None => Some(Lineage { chain_id: chain, earliest: r.created_at, latest: r.created_at, count: 1 }),
                    Some(l) => Some(
                        Lineage {
                            chain_id: chain,
                            earliest: if r.created_at < l.earliest { r.created_at } else { l.earliest },
                            latest: if r.created_at > l.latest { r.created_at } else { l.latest },
                            count: l.count + 1,
                        },
                    ),
                };
            }
            i += 1;
        }
        assert(self@.subrange(0, self@.len() as int) =~= self@);
        acc
    }

    /// Starts a lineage `chain_id` whose first token is `session_id`, made at `now`.
    /// Fails when the token or the lineage is already known.
    pub fn issue(&mut self, session_id: u128, chain_id: u128, now: i64) -> (r: Result<u128, Error>)
        ensures
            if chain_of(old(self)@, session_id) is None && lineage_of(old(self)@, chain_id) is None {
                &&& r == Ok::<u128, Error>(session_id)
                &&& final(self)@ == old(self)@.push(
                    Record { session_id, chain_id, created_at: now },
                )
            } else {
                &&& r == Err::<u128, Error>(Error::Create)
                &&& final(self)@ == old(self)@
            },
    {
        if self.find_chain(session_id).is_some() || self.aggregate(chain_id).is_some() {
            return Err(Error::Create);
        }
        self.records.push(Record { session_id, chain_id, created_at: now });
        Ok(session_id)
    }

    /// Adds the token `new_token`, made at `now`, to the lineage of `token`.
    /// Fails when `token` is unknown or `new_token` is already known.
    pub fn append(&mut self, token: u128, new_token: u128, now: i64) -> (r: Result<u128, Error>)
        ensures
            match chain_of(old(self)@, token) {
                None => r == Err::<u128, Error>(Error::LineageNotFound) && final(self)@ == old(self)@,
                Some(c) => if chain_of(old(self)@, new_token) is Some {
                    r == Err::<u128, Error>(Error::Create) && final(self)@ == old(self)@
                } else {
                    &&& r == Ok::<u128, Error>(new_token)
                    &&& final(self)@ == old(self)@.push(
                        Record { session_id: new_token, chain_id: c, created_at: now },
                    )
                },
            },
    {
        match self.find_chain(token) {
            None => Err(Error::LineageNotFound),
            Some(c) => {
                if self.find_chain(new_token).is_some() {
                    return Err(Error::Create);
                }
                self.records.push(Record { session_id: new_token, chain_id: c, created_at: now });
                Ok(new_token)
            },
        }
    }

    /// Deletes every record of the lineage `chain`, and no other.
    pub fn delete_chain(&mut self, chain: u128)
        ensures
            final(self)@ == without_chain(old(self)@, chain),
    {
        let mut kept: Vec<Record> = Vec::new();
        let mut i: usize = 0;
        while i < self.records.len()
            invariant
                i <= self.records.len(),
                kept@ == without_chain(self@.subrange(0, i as int), chain),
            decreases self.records.len() - i,
        {
            proof {
                lemma_prefix_step(self@, i as int);
            }
            let r = self.records[i];
            if r.chain_id != chain {
                kept.push(r);
            }
            i += 1;
        }
        assert(self@.subrange(0, self@.len() as int) =~= self@);
        self.records = kept;
    }

    /// Rotates `token` at `now`: resolves its lineage, and when the lineage's
    /// density lies in `[min_milli, max_milli]` thousandths per second, adds
    /// `new_token` to it; otherwise deletes the whole lineage.
    pub fn rotate(
        &mut self,
        token: u128,
        new_token: u128,
        now: i64,
        min_milli: u32,
        max_milli: u32,
    ) -> (r: Result<u128, Error>)
        ensures
            (final(self)@, r) == rotation_effect(old(self)@, token, new_token, now, min_milli, max_milli),
    {
        let l = match self.get(token) {
            Ok(l) => l,
            Err(e) => return Err(e),
        };
        let len: usize = self.records.len();
        proof {
            assert(self@.len() == len);
            lemma_lineage_count(self@, chain_of(self@, token).unwrap());
        }
        match next_step(&l, now, min_milli, max_milli) {
            Step::Append { .. } => self.append(token, new_token, now),
            Step::Revoke { chain_id } => {
                self.delete_chain(chain_id);
                Err(Error::InvalidToken)
            },
        }
    }

    /// Resolves `token` to the aggregate of its lineage.
    pub fn get(&self, token: u128) -> (r: Result<Lineage, Error>)
        ensures
            match chain_of(self@, token) {
                None => r == Err::<Lineage, Error>(Error::LineageNotFound),
                Some(c) => lineage_of(self@, c) is Some && r == Ok::<Lineage, Error>(
                    lineage_of(self@, c).unwrap(),
                ),
            },
    {
        match self.find_chain(token) {
            None => Err(Error::LineageNotFound),
            Some(c) => {
                proof {
                    lemma_resolved_lineage(self@, token);
                }
                match self.aggregate(c) {
                    Some(l) => Ok(l),
                    None => Err(Error::LineageNotFound),
                }
            },
        }
    }
}

} // verus!
