//! Self-contained credential claims, their rotation, and the density policy.
use vstd::prelude::*;
use crate::destroy::{Destroyer, MakeFragile, Outcome};
use crate::error::Error;
use crate::mutation::{Mutable, Mutator};
use crate::validation::{MakeIntrospective, MakeStopGrowing, Validator};

verus! {

/// The state carried inside a signed token: expiry, issuance time (both in
/// seconds) and the number of the rotation that produced it.
#[derive(Debug, Clone, Copy, PartialEq, Eq, Hash)]
pub struct Claims {
    pub exp: i64,
    pub from: i64,
    pub count: i64,
}

/// The rate of a lineage, `num / den` rotations per second, with `den >= 1`.
#[derive(Debug, Clone, Copy, PartialEq, Eq, Hash)]
pub struct Density {
    pub num: i128,
    pub den: i128,
}

/// `count / elapsed` as a fraction with a positive denominator; an elapsed
/// time of zero counts as one second.
pub open spec fn density_of(count: int, elapsed: int) -> (int, int) {
    if elapsed == 0 {
        (count, 1)
    } else if elapsed > 0 {
        (count, elapsed)
    } else {
        (-count, -elapsed)
    }
}

/// `min_milli / 1000 <= count / elapsed <= max_milli / 1000`, with the
/// density of [`density_of`].
pub open spec fn within_band(min_milli: int, max_milli: int, count: int, elapsed: int) -> bool {
    let (n, d) = density_of(count, elapsed);
    min_milli * d <= 1000 * n && 1000 * n <= max_milli * d
}

/// The density of a lineage issued at `from` that has reached `count` at `now`.
pub fn density(count: i64, from: i64, now: i64) -> (r: Density)
    ensures
        (r.num as int, r.den as int) == density_of(count as int, now - from),
        r.den >= 1,
{
    let elapsed: i128 = now as i128 - from as i128;
    if elapsed == 0 {
        Density { num: count as i128, den: 1 }
    } else if elapsed > 0 {
        Density { num: count as i128, den: elapsed }
    } else {
        Density { num: -(count as i128), den: -elapsed }
    }
}

/// Accepts claims whose density at `now` lies in `[min_milli, max_milli]`
/// thousandths of a rotation per second, bounds included.
#[derive(Debug, Clone, Copy, PartialEq, Eq, Hash)]
pub struct DensityPolicy {
    pub now: i64,
    pub min_milli: u32,
    pub max_milli: u32,
}

impl DensityPolicy {
    pub open spec fn admits_spec(&self, c: Claims) -> bool {
        within_band(self.min_milli as int, self.max_milli as int, c.count as int, self.now - c.from)
    }

    pub fn admits(&self, c: &Claims) -> (ok: bool)
        ensures
            ok == self.admits_spec(*c),
    {
        band_admits(
            c.count as i128,
            self.now as i128 - c.from as i128,
            self.min_milli,
            self.max_milli,
        )
    }
}

/// Whether `count` rotations over `elapsed` seconds lie in `[min_milli, max_milli]`
/// thousandths of a rotation per second.
pub fn band_admits(count: i128, elapsed: i128, min_milli: u32, max_milli: u32) -> (ok: bool)
    requires
        -0x1_0000_0000_0000_0000 <= count <= 0x1_0000_0000_0000_0000,
        -0x1_0000_0000_0000_0000 <= elapsed <= 0x1_0000_0000_0000_0000,
    ensures
        ok == within_band(min_milli as int, max_milli as int, count as int, elapsed as int),
{
    let (num, den): (i128, i128) = if elapsed == 0 {
        (count, 1)
    } else if elapsed > 0 {
        (count, elapsed)
    } else {
        (-count, -elapsed)
    };
    let lo: i128 = min_milli as i128;
    let hi: i128 = max_milli as i128;
    assert(0 <= lo * den <= 0xffff_ffff * 0x1_0000_0000_0000_0000) by (nonlinear_arith)
        requires
            0 <= lo <= 0xffff_ffff,
            1 <= den <= 0x1_0000_0000_0000_0000,
    ;
    assert(0 <= hi * den <= 0xffff_ffff * 0x1_0000_0000_0000_0000) by (nonlinear_arith)
        requires
            0 <= hi <= 0xffff_ffff,
            1 <= den <= 0x1_0000_0000_0000_0000,
    ;
    lo * den <= 1000 * num && 1000 * num <= hi * den
}

impl Validator<Claims> for DensityPolicy {
    open spec fn validation_requires(&self, x: Claims) -> bool {
        true
    }

    open spec fn validation_ensures(&self, x: Claims, ok: bool) -> bool {
        ok == self.admits_spec(x)
    }

    fn is_valid(&self, other: &Claims) -> (ok: bool) {
        self.admits(other)
    }
}

/// The density policy at `now` with the band `[min_milli, max_milli]`.
pub fn validator(now: i64, min_milli: u32, max_milli: u32) -> (r: DensityPolicy)
    ensures
        r == (DensityPolicy { now, min_milli, max_milli }),
{
    DensityPolicy { now, min_milli, max_milli }
}

/// Advances claims at `now`: the count goes up by one, the issuance time is
/// kept, and the expiry becomes `now + exp_in`.
#[derive(Debug, Clone, Copy, PartialEq, Eq, Hash)]
pub struct ClaimsRotation {
    pub now: i64,
    pub exp_in: i64,
}

/// Whether `x` fits in an `i64`.
pub open spec fn fits_i64(x: int) -> bool {
    i64::MIN <= x <= i64::MAX
}

impl ClaimsRotation {
    /// The successor of `c`, or `None` when a field would leave the range of `i64`.
    pub open spec fn rotated(&self, c: Claims) -> Option<Claims> {
        if fits_i64(self.now + self.exp_in) && fits_i64(c.count + 1) {
            Some(Claims { exp: (self.now + self.exp_in) as i64, from: c.from, count: (c.count + 1) as i64 })
        } else {
            None
        }
    }
}

impl Mutator<Claims> for ClaimsRotation {
    open spec fn mutation_requires(&self, from: Claims) -> bool {
        true
    }

    open spec fn mutation_ensures(&self, from: Claims, to: Option<Claims>) -> bool {
        to == self.rotated(from)
    }

    fn mutation(&self, from: Claims) -> (r: Option<Claims>) {
        match self.now.checked_add(self.exp_in) {
            Some(exp) => match from.count.checked_add(1) {
                Some(count) => Some(Claims { exp, from: from.from, count }),
                None => None,
            },
            None => None,
        }
    }
}

/// The rotation that advances claims at `now` with a lifetime of `exp_in` seconds.
pub fn mutator(now: i64, exp_in: i64) -> (r: ClaimsRotation)
    ensures
        r == (ClaimsRotation { now, exp_in }),
{
    ClaimsRotation { now, exp_in }
}

pub open spec fn issued(now: int, exp_in: int) -> Result<Claims, Error> {
    if fits_i64(now + exp_in) {
        Ok(Claims { exp: (now + exp_in) as i64, from: now as i64, count: 1 })
    } else {
        Err(Error::Create)
    }
}

/// The first claims of a lineage issued at `now` with a lifetime of `exp_in` seconds.
pub fn factory(now: i64, exp_in: i64) -> (r: Result<Claims, Error>)
    ensures
        r == issued(now as int, exp_in as int),
{
    match now.checked_add(exp_in) {
        Some(exp) => Ok(Claims { exp, from: now, count: 1 }),
        None => Err(Error::Create),
    }
}

/// Revokes the lineage of self-contained claims. Such claims live only in the
/// token, so there is no record to delete.
pub fn destroy(_claims: &Claims) {
}

/// The destroyer of self-contained claims: it runs [`destroy`], and reports the
/// purge as complete since no record of the lineage is kept.
#[derive(Debug, Clone, Copy, PartialEq, Eq, Hash)]
pub struct ClaimsDestroyer;

impl Destroyer<Claims> for ClaimsDestroyer {
    open spec fn destroy_requires(&self, x: Claims) -> bool {
        true
    }

    open spec fn destroy_ensures(&self, x: Claims, purged: bool) -> bool {
        purged
    }

    fn destroy(&self, other: &Claims) -> (purged: bool) {
        destroy(other);
        true
    }
}

/// What happens to a rotation whose successor fails the density policy.
#[derive(Debug, Clone, Copy, PartialEq, Eq, Hash)]
pub enum Guard {
    /// No validation: every successor is accepted.
    Anyway,
    /// The rotation is rejected.
    Introspective,
    /// The previous claims are kept and handed out again.
    StopGrowing,
    /// The rotation is rejected and the lineage destroyed.
    Fragile,
}

/// The result of rotating `claims` under `guard`.
pub open spec fn rotation_result(
    claims: Claims,
    rotation: ClaimsRotation,
    policy: DensityPolicy,
    guard: Guard,
) -> Result<Claims, Error> {
    match rotation.rotated(claims) {
        None => Err(Error::InvalidToken),
        Some(n) => {
            if guard == Guard::Anyway || policy.admits_spec(n) {
                Ok(n)
            } else if guard == Guard::StopGrowing {
                Ok(claims)
            } else {
                Err(Error::InvalidToken)
            }
        },
    }
}

/// Rotates `claims` by `rotation`, judging the successor by `policy` as `guard` says.
pub fn rotate(claims: Claims, rotation: ClaimsRotation, policy: DensityPolicy, guard: Guard) -> (r:
    Result<Claims, Error>)
    ensures
        r == rotation_result(claims, rotation, policy, guard),
{
    let m = rotation.make_mutable(claims);
    match guard {
        Guard::Anyway => match m.mutate() {
            Some(x) => Ok(*x.inner()),
            None => Err(Error::InvalidToken),
        },
        Guard::Introspective => match policy.make_introspective(m).mutate() {
            Some(x) => Ok(*x.inner()),
            None => Err(Error::InvalidToken),
        },
        Guard::StopGrowing => match policy.make_stop_growing(m).mutate() {
            Some(x) => Ok(*x.inner()),
            None => Err(Error::InvalidToken),
        },
        Guard::Fragile => match ClaimsDestroyer.make_fragile(policy, m).attempt() {
            Outcome::Advanced(x) => Ok(*x.inner()),
            Outcome::Halted => Err(Error::InvalidToken),
            Outcome::Revoked { purged } => {
                if purged {
                    Err(Error::InvalidToken)
                } else {
                    Err(Error::RevocationFailed)
                }
            },
        },
    }
}

/// An accepted rotation moves the count up by exactly one, keeps the
/// issuance time and sets the expiry to `now + exp_in`; under any guard, a
/// successful rotation never lowers the count nor changes the issuance time.
pub proof fn lemma_rotation_monotonic(
    claims: Claims,
    rotation: ClaimsRotation,
    policy: DensityPolicy,
    guard: Guard,
)
    ensures
        match rotation.rotated(claims) {
            Some(n) => (guard == Guard::Anyway || policy.admits_spec(n)) ==> {
                &&& rotation_result(claims, rotation, policy, guard) == Ok::<Claims, Error>(n)
                &&& n.count == claims.count + 1
                &&& n.from == claims.from
                &&& n.exp == rotation.now + rotation.exp_in
            },
            None => rotation_result(claims, rotation, policy, guard) == Err::<Claims, Error>(
                Error::InvalidToken,
            ),
        },
        match rotation_result(claims, rotation, policy, guard) {
            Ok(n) => n.from == claims.from && (n.count == claims.count + 1 || n == claims),
            Err(_) => true,
        },
{
}

} // verus!
