//! Asset-transfer router: classifies a mint as a standard or a rule-constrained
//! (programmable) asset, resolves the auxiliary accounts a programmable
//! transfer needs from an unordered candidate pool, decides whether the
//! destination holding account must be created, and assembles the exact,
//! ordered cross-program call payloads. The caller performs the calls; every
//! decision and every payload layout is made, and proved, here.

pub mod keys;
pub mod errors;
pub mod accounts;
pub mod pda;
pub mod classifier;
pub mod resolver;
pub mod provisioner;
pub mod standard;
pub mod programmable;
pub mod router;
