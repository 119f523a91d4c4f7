//! Issuance, rotation and revocation of short-lived credentials, built on a
//! small algebra of state transitions.
//!
//! A [`Mutator`] advances a state, a [`Validator`] judges the successor, and a
//! [`Destroyer`] revokes a lineage. The combinators [`Introspective`],
//! [`StopGrowing`] and [`Fragile`] decide what happens to a rejected
//! successor: it is dropped, the previous state is kept, or the whole lineage
//! is destroyed. [`claims`] applies them to self-contained credential claims
//! with a density policy; [`chain`] keeps lineages as chains of records.
pub mod chain;
pub mod claims;
pub mod destroy;
pub mod error;
pub mod mutation;
pub mod response;
pub mod session;
pub mod validation;

pub use chain::{ChainStore, Lineage, Record, Step};
pub use claims::{Claims, ClaimsDestroyer, ClaimsRotation, Density, DensityPolicy, Guard};
pub use destroy::{Corruptible, Destroyer, Fragile, MakeFragile, Outcome};
pub use error::Error;
pub use mutation::{Current, IntoMutable, Mutable, Mutator};
pub use response::TokenResp;
pub use session::{
    mutate_in_pool, mutate_in_pool_with_motal, mutate_in_pool_with_validator, Mortal, Store,
};
pub use validation::{
    Introspective, MakeIntrospective, MakeStopGrowing, StopGrowing, Validatable, Validator,
};
