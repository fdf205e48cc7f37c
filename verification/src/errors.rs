//! The router's error taxonomy. Every locally detectable fault is a typed,
//! recoverable value, returned before any cross-program call is issued;
//! rejections by an invoked protocol are the caller's to propagate verbatim.

use vstd::prelude::*;

verus! {

/// An auxiliary account the programmable transfer protocol requires.
#[derive(Clone, Copy, Debug, PartialEq, Eq, Structural)]
pub enum RequiredAccount {
    Metadata,
    Edition,
    TokenRecordSource,
    TokenRecordTarget,
    SysvarInstructions,
    AuthRulesProgram,
    MplTokenProgram,
}

/// Faults the router detects itself, before any cross-program call.
#[derive(Clone, Copy, Debug, PartialEq, Eq, Structural)]
pub enum SharedError {
    /// The supplied destination token account is not the associated account
    /// of (target wallet, mint, token program).
    InvalidTokenAccount,
    /// A rule-constrained asset was asked to move more than one unit.
    CannotTransferMultiplePnfts,
    /// A mandatory auxiliary account of a programmable transfer is absent.
    MissingRequiredAccount(RequiredAccount),
}

} // verus!
