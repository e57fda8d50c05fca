//! What the interfaces of tokens have in common: the modes of their operations and
//! the consequences that they foresee.

use vstd::prelude::*;

verus! {

/// The error of a dispatched operation, as the runtime defines it. The token
/// interfaces pass it on and never look inside.
#[verifier::external_type_specification]
#[verifier::external_body]
pub struct ExDispatchError(sp_runtime::DispatchError);

/// Something that names a value of a fixed type.
pub trait Get<T> {
    /// The value.
    fn get() -> T;
}

/// Where the funds of a deposit come from.
#[derive(Clone, Copy, PartialEq, Eq, Debug, Structural)]
pub enum Provenance {
    /// The funds are created and add to the total issuance.
    Minted,
    /// The funds exist already.
    Extant,
}

/// Under which restriction funds are used.
#[derive(Clone, Copy, PartialEq, Eq, Debug, Structural)]
pub enum Restriction {
    /// The funds are free.
    Free,
    /// The funds are on hold.
    OnHold,
}

/// Whether an operation may end the existence of an account.
#[derive(Clone, Copy, PartialEq, Eq, Debug, Structural)]
pub enum Preservation {
    /// The account may go out of existence.
    Expendable,
    /// The account must stay, though its balance may fall to dust.
    Protect,
    /// The account must stay and keep a balance that is no dust.
    Preserve,
}

/// With which privilege funds are taken.
#[derive(Clone, Copy, PartialEq, Eq, Debug, Structural)]
pub enum Fortitude {
    /// With regular privilege.
    Polite,
    /// Forced to succeed where possible, as for slashing.
    Force,
}

/// How exact the amount of an operation has to be.
#[derive(Clone, Copy, PartialEq, Eq, Debug, Structural)]
pub enum Precision {
    /// All of the amount or nothing.
    Exact,
    /// As much of the amount as can be had.
    BestEffort,
}

/// What withdrawing from an account would lead to.
#[derive(Clone, Copy, PartialEq, Eq, Debug)]
pub enum WithdrawConsequence<Balance> {
    /// The account holds less than the amount.
    BalanceLow,
    /// The account would die though it has to exist.
    WouldDie,
    /// The asset is not known.
    UnknownAsset,
    /// A number would fall below zero: the state is corrupt.
    Underflow,
    /// A number would exceed its bound: the state is corrupt.
    Overflow,
    /// Too little of the balance is free to be withdrawn.
    Frozen,
    /// The balance would fall to zero; the given amount of it would be lost.
    ReducedToZero(Balance),
    /// The account would go on to exist.
    Success,
}

/// What depositing into an account would lead to.
#[derive(Clone, Copy, PartialEq, Eq, Debug, Structural)]
pub enum DepositConsequence {
    /// The amount is too low to bring the account into existence.
    BelowMinimum,
    /// The account cannot be created.
    CannotCreate,
    /// The asset is not known.
    UnknownAsset,
    /// A number would exceed its bound.
    Overflow,
    /// The account would go on to exist.
    Success,
    /// The account cannot receive the asset.
    Blocked,
}

} // verus!
