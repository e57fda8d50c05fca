//! Tokens of a single asset.

use crate::tokens::{
    DepositConsequence, Fortitude, Precision, Preservation, Provenance, Restriction,
    WithdrawConsequence,
};
use vstd::prelude::*;

verus! {

/// An amount that was too small to stay in an account.
pub struct Dust<AccountId, T: Unbalanced<AccountId>>(pub T::Balance);

/// Reads the state of balances.
pub trait Inspect<AccountId> {
    /// The type in which amounts are counted.
    type Balance;

    /// The total amount in existence.
    fn total_issuance() -> Self::Balance;

    /// The amount in existence that is not set aside.
    fn active_issuance() -> Self::Balance;

    /// The least balance that an account may have.
    fn minimum_balance() -> Self::Balance;

    /// The balance of `who`, before any restriction.
    fn balance(who: &AccountId) -> Self::Balance;

    /// Everything that `who` owns, held amounts included.
    fn total_balance(who: &AccountId) -> Self::Balance;

    /// The most by which the balance of `who` can be reduced.
    fn reducible_balance(
        who: &AccountId,
        preservation: Preservation,
        force: Fortitude,
    ) -> Self::Balance;

    /// What depositing `amount` into the account of `who` would lead to.
    fn can_deposit(
        who: &AccountId,
        amount: Self::Balance,
        provenance: Provenance,
    ) -> DepositConsequence;

    /// What withdrawing `amount` from the account of `who` would lead to.
    fn can_withdraw(
        who: &AccountId,
        amount: Self::Balance,
    ) -> WithdrawConsequence<Self::Balance>;
}

/// Reads the amounts that are on hold.
pub trait InspectHold<AccountId>: Inspect<AccountId> {
    /// The reasons for which amounts are put on hold.
    type Reason;

    /// The most by which the held balance of `who` can be reduced.
    fn reducible_total_balance_on_hold(who: &AccountId, force: Fortitude) -> Self::Balance;

    /// Whether `who` can have an amount put on hold for `reason`.
    fn hold_available(reason: &Self::Reason, who: &AccountId) -> bool;

    /// Everything of `who` that is on hold, whatever the reason.
    fn total_balance_on_hold(who: &AccountId) -> Self::Balance;

    /// What is on hold for `reason` in the account of `who`.
    fn balance_on_hold(reason: &Self::Reason, who: &AccountId) -> Self::Balance;

    /// Whether `amount` can be put on hold for `reason` at `who`.
    fn can_hold(reason: &Self::Reason, who: &AccountId, amount: Self::Balance) -> bool;
}

/// Reads the amounts that are frozen.
pub trait InspectFreeze<AccountId>: Inspect<AccountId> {
    /// The means to tell freezes apart.
    type Id;

    /// What the freeze `id` locks in the account of `who`.
    fn balance_frozen(id: &Self::Id, who: &AccountId) -> Self::Balance;

    /// The balance of `who` that a freeze can lock.
    fn balance_freezable(who: &AccountId) -> Self::Balance;

    /// Whether the freeze `id` can be placed on the account of `who`.
    fn can_freeze(id: &Self::Id, who: &AccountId) -> bool;
}

/// Changes balances without keeping the total issuance in step.
pub trait Unbalanced<AccountId>: Inspect<AccountId> {
    /// Disposes of an amount that was too small to stay in an account.
    fn handle_dust(dust: Dust<AccountId, Self>) where Self: Sized;

    /// Sets the balance of `who` and returns the dust that this leaves.
    fn write_balance(
        who: &AccountId,
        amount: Self::Balance,
    ) -> Result<Option<Self::Balance>, sp_runtime::DispatchError>;

    /// Sets the total issuance.
    fn set_total_issuance(amount: Self::Balance);

    /// Reduces the balance of `who` and returns the amount it was reduced by.
    fn decrease_balance(
        who: &AccountId,
        amount: Self::Balance,
        precision: Precision,
        preservation: Preservation,
        force: Fortitude,
    ) -> Result<Self::Balance, sp_runtime::DispatchError>;

    /// Raises the balance of `who` and returns the amount it was raised by.
    fn increase_balance(
        who: &AccountId,
        amount: Self::Balance,
        precision: Precision,
    ) -> Result<Self::Balance, sp_runtime::DispatchError>;
}

/// Changes held amounts without keeping the total issuance in step.
pub trait UnbalancedHold<AccountId>: InspectHold<AccountId> {
    /// Sets what is on hold for `reason` in the account of `who`.
    fn set_balance_on_hold(
        reason: &Self::Reason,
        who: &AccountId,
        amount: Self::Balance,
    ) -> Result<(), sp_runtime::DispatchError>;

    /// Reduces what is on hold and returns the amount it was reduced by.
    fn decrease_balance_on_hold(
        reason: &Self::Reason,
        who: &AccountId,
        amount: Self::Balance,
        precision: Precision,
    ) -> Result<Self::Balance, sp_runtime::DispatchError>;

    /// Raises what is on hold and returns the amount it was raised by.
    fn increase_balance_on_hold(
        reason: &Self::Reason,
        who: &AccountId,
        amount: Self::Balance,
        precision: Precision,
    ) -> Result<Self::Balance, sp_runtime::DispatchError>;
}

/// Mints, burns and moves balances.
pub trait Mutate<AccountId>: Inspect<AccountId> + Unbalanced<AccountId> {
    /// Creates `amount` in the account of `who`.
    fn mint_into(
        who: &AccountId,
        amount: Self::Balance,
    ) -> Result<Self::Balance, sp_runtime::DispatchError>;

    /// Destroys up to `amount` in the account of `who`.
    fn burn_from(
        who: &AccountId,
        amount: Self::Balance,
        preservation: Preservation,
        precision: Precision,
        force: Fortitude,
    ) -> Result<Self::Balance, sp_runtime::DispatchError>;

    /// Takes `amount` out of the account of `who` and out of the issuance.
    fn shelve(
        who: &AccountId,
        amount: Self::Balance,
    ) -> Result<Self::Balance, sp_runtime::DispatchError>;

    /// Puts `amount` back into the account of `who`.
    fn restore(
        who: &AccountId,
        amount: Self::Balance,
    ) -> Result<Self::Balance, sp_runtime::DispatchError>;

    /// Moves `amount` from `source` to `dest`.
    fn transfer(
        source: &AccountId,
        dest: &AccountId,
        amount: Self::Balance,
        preservation: Preservation,
    ) -> Result<Self::Balance, sp_runtime::DispatchError>;

    /// Brings the balance of `who` as near to `amount` as it can be.
    fn set_balance(who: &AccountId, amount: Self::Balance) -> Self::Balance;
}

/// Puts amounts on hold and releases them.
pub trait MutateHold<AccountId>: InspectHold<AccountId> + UnbalancedHold<AccountId> {
    /// Puts `amount` of the balance of `who` on hold for `reason`.
    fn hold(
        reason: &Self::Reason,
        who: &AccountId,
        amount: Self::Balance,
    ) -> Result<(), sp_runtime::DispatchError>;

    /// Releases up to `amount` that is on hold for `reason`.
    fn release(
        reason: &Self::Reason,
        who: &AccountId,
        amount: Self::Balance,
        precision: Precision,
    ) -> Result<Self::Balance, sp_runtime::DispatchError>;

    /// Destroys up to `amount` that is on hold for `reason`.
    fn burn_held(
        reason: &Self::Reason,
        who: &AccountId,
        amount: Self::Balance,
        precision: Precision,
        force: Fortitude,
    ) -> Result<Self::Balance, sp_runtime::DispatchError>;

    /// Moves an amount that is on hold at `source` to `dest`.
    fn transfer_on_hold(
        reason: &Self::Reason,
        source: &AccountId,
        dest: &AccountId,
        amount: Self::Balance,
        precision: Precision,
        mode: Restriction,
        force: Fortitude,
    ) -> Result<Self::Balance, sp_runtime::DispatchError>;

    /// Moves a free amount from `source` to `dest` and holds it there.
    fn transfer_and_hold(
        reason: &Self::Reason,
        source: &AccountId,
        dest: &AccountId,
        amount: Self::Balance,
        precision: Precision,
        preservation: Preservation,
        force: Fortitude,
    ) -> Result<Self::Balance, sp_runtime::DispatchError>;
}

/// Places and lifts freezes.
pub trait MutateFreeze<AccountId>: InspectFreeze<AccountId> {
    /// Makes the freeze `id` lock exactly `amount`.
    fn set_freeze(
        id: &Self::Id,
        who: &AccountId,
        amount: Self::Balance,
    ) -> Result<(), sp_runtime::DispatchError>;

    /// Makes the freeze `id` lock at least `amount`.
    fn extend_freeze(
        id: &Self::Id,
        who: &AccountId,
        amount: Self::Balance,
    ) -> Result<(), sp_runtime::DispatchError>;

    /// Lifts the freeze `id`.
    fn thaw(id: &Self::Id, who: &AccountId) -> Result<(), sp_runtime::DispatchError>;
}

/// Handles an imbalance that was dropped without being settled.
pub trait HandleImbalanceDrop<Balance> {
    /// Sees to the `amount` that nobody has accounted for.
    fn handle(amount: Balance);
}

/// Is told when an amount on hold has been slashed.
pub trait DoneSlash<Reason, AccountId, Balance> {
    /// Notes that `amount` that `who` had on hold for `reason` was slashed.
    fn done_slash(reason: &Reason, who: &AccountId, amount: Balance);
}

} // verus!
