//! One asset of a many-asset token, seen as a token of its own.

use crate::fungible;
use crate::fungibles;
use crate::tokens::{
    DepositConsequence, Fortitude, Get, Precision, Preservation, Provenance, Restriction,
    WithdrawConsequence,
};
use vstd::prelude::*;

verus! {

/// Converts a many-asset token `F` into a single-asset token by fixing the asset that
/// `A` names. Every operation is that of `F` on this asset, with the same arguments.
pub struct ItemOf<F, A, AccountId>(core::marker::PhantomData<(F, A, AccountId)>);

impl<
    F: fungibles::Inspect<AccountId>,
    A: Get<<F as fungibles::Inspect<AccountId>>::AssetId>,
    AccountId,
> fungible::Inspect<AccountId> for ItemOf<F, A, AccountId> {
    type Balance = <F as fungibles::Inspect<AccountId>>::Balance;

    /// The total amount in existence.
    /// The operation is that of `F` on the asset that `A` names.
    fn total_issuance() -> (r: Self::Balance)
        ensures
            exists|asset: <F as fungibles::Inspect<AccountId>>::AssetId|
                call_ensures(A::get, (), asset) && call_ensures(
                    <F as fungibles::Inspect<AccountId>>::total_issuance,
                    (asset,),
                    r,
                ),
    {
        <F as fungibles::Inspect<AccountId>>::total_issuance(A::get())
    }

    /// The amount in existence that is not set aside.
    /// The operation is that of `F` on the asset that `A` names.
    fn active_issuance() -> (r: Self::Balance)
        ensures
            exists|asset: <F as fungibles::Inspect<AccountId>>::AssetId|
                call_ensures(A::get, (), asset) && call_ensures(
                    <F as fungibles::Inspect<AccountId>>::active_issuance,
                    (asset,),
                    r,
                ),
    {
        <F as fungibles::Inspect<AccountId>>::active_issuance(A::get())
    }

    /// The least balance that an account may have.
    /// The operation is that of `F` on the asset that `A` names.
    fn minimum_balance() -> (r: Self::Balance)
        ensures
            exists|asset: <F as fungibles::Inspect<AccountId>>::AssetId|
                call_ensures(A::get, (), asset) && call_ensures(
                    <F as fungibles::Inspect<AccountId>>::minimum_balance,
                    (asset,),
                    r,
                ),
    {
        <F as fungibles::Inspect<AccountId>>::minimum_balance(A::get())
    }

    /// The balance of `who`, before any restriction.
    /// The operation is that of `F` on the asset that `A` names.
    fn balance(who: &AccountId) -> (r: Self::Balance)
        ensures
            exists|asset: <F as fungibles::Inspect<AccountId>>::AssetId|
                call_ensures(A::get, (), asset) && call_ensures(
                    <F as fungibles::Inspect<AccountId>>::balance,
                    (asset, who),
                    r,
                ),
    {
        <F as fungibles::Inspect<AccountId>>::balance(A::get(), who)
    }

    /// Everything that `who` owns, held amounts included.
    /// The operation is that of `F` on the asset that `A` names.
    fn total_balance(who: &AccountId) -> (r: Self::Balance)
        ensures
            exists|asset: <F as fungibles::Inspect<AccountId>>::AssetId|
                call_ensures(A::get, (), asset) && call_ensures(
                    <F as fungibles::Inspect<AccountId>>::total_balance,
                    (asset, who),
                    r,
                ),
    {
        <F as fungibles::Inspect<AccountId>>::total_balance(A::get(), who)
    }

    /// The most by which the balance of `who` can be reduced.
    /// The operation is that of `F` on the asset that `A` names.
    fn reducible_balance(
        who: &AccountId,
        preservation: Preservation,
        force: Fortitude,
    ) -> (r: Self::Balance)
        ensures
            exists|asset: <F as fungibles::Inspect<AccountId>>::AssetId|
                call_ensures(A::get, (), asset) && call_ensures(
                    <F as fungibles::Inspect<AccountId>>::reducible_balance,
                    (asset, who, preservation, force),
                    r,
                ),
    {
        <F as fungibles::Inspect<AccountId>>::reducible_balance(
            A::get(),
            who,
            preservation,
            force,
        )
    }

    /// What depositing `amount` into the account of `who` would lead to.
    /// The operation is that of `F` on the asset that `A` names.
    fn can_deposit(
        who: &AccountId,
        amount: Self::Balance,
        provenance: Provenance,
    ) -> (r: DepositConsequence)
        ensures
            exists|asset: <F as fungibles::Inspect<AccountId>>::AssetId|
                call_ensures(A::get, (), asset) && call_ensures(
                    <F as fungibles::Inspect<AccountId>>::can_deposit,
                    (asset, who, amount, provenance),
                    r,
                ),
    {
        <F as fungibles::Inspect<AccountId>>::can_deposit(A::get(), who, amount, provenance)
    }

    /// What withdrawing `amount` from the account of `who` would lead to.
    /// The operation is that of `F` on the asset that `A` names.
    fn can_withdraw(
        who: &AccountId,
        amount: Self::Balance,
    ) -> (r: WithdrawConsequence<Self::Balance>)
        ensures
            exists|asset: <F as fungibles::Inspect<AccountId>>::AssetId|
                call_ensures(A::get, (), asset) && call_ensures(
                    <F as fungibles::Inspect<AccountId>>::can_withdraw,
                    (asset, who, amount),
                    r,
                ),
    {
        <F as fungibles::Inspect<AccountId>>::can_withdraw(A::get(), who, amount)
    }
}

impl<
    F: fungibles::InspectHold<AccountId>,
    A: Get<<F as fungibles::Inspect<AccountId>>::AssetId>,
    AccountId,
> fungible::InspectHold<AccountId> for ItemOf<F, A, AccountId> {
    type Reason = <F as fungibles::InspectHold<AccountId>>::Reason;

    /// The most by which the held balance of `who` can be reduced.
    /// The operation is that of `F` on the asset that `A` names.
    fn reducible_total_balance_on_hold(who: &AccountId, force: Fortitude) -> (r: Self::Balance)
        ensures
            exists|asset: <F as fungibles::Inspect<AccountId>>::AssetId|
                call_ensures(A::get, (), asset) && call_ensures(
                    <F as fungibles::InspectHold<AccountId>>::reducible_total_balance_on_hold,
                    (asset, who, force),
                    r,
                ),
    {
        <F as fungibles::InspectHold<AccountId>>::reducible_total_balance_on_hold(
            A::get(),
            who,
            force,
        )
    }

    /// Whether `who` can have an amount put on hold for `reason`.
    /// The operation is that of `F` on the asset that `A` names.
    fn hold_available(reason: &Self::Reason, who: &AccountId) -> (r: bool)
        ensures
            exists|asset: <F as fungibles::Inspect<AccountId>>::AssetId|
                call_ensures(A::get, (), asset) && call_ensures(
                    <F as fungibles::InspectHold<AccountId>>::hold_available,
                    (asset, reason, who),
                    r,
                ),
    {
        <F as fungibles::InspectHold<AccountId>>::hold_available(A::get(), reason, who)
    }

    /// Everything of `who` that is on hold, whatever the reason.
    /// The operation is that of `F` on the asset that `A` names.
    fn total_balance_on_hold(who: &AccountId) -> (r: Self::Balance)
        ensures
            exists|asset: <F as fungibles::Inspect<AccountId>>::AssetId|
                call_ensures(A::get, (), asset) && call_ensures(
                    <F as fungibles::InspectHold<AccountId>>::total_balance_on_hold,
                    (asset, who),
                    r,
                ),
    {
        <F as fungibles::InspectHold<AccountId>>::total_balance_on_hold(A::get(), who)
    }

    /// What is on hold for `reason` in the account of `who`.
    /// The operation is that of `F` on the asset that `A` names.
    fn balance_on_hold(reason: &Self::Reason, who: &AccountId) -> (r: Self::Balance)
        ensures
            exists|asset: <F as fungibles::Inspect<AccountId>>::AssetId|
                call_ensures(A::get, (), asset) && call_ensures(
                    <F as fungibles::InspectHold<AccountId>>::balance_on_hold,
                    (asset, reason, who),
                    r,
                ),
    {
        <F as fungibles::InspectHold<AccountId>>::balance_on_hold(A::get(), reason, who)
    }

    /// Whether `amount` can be put on hold for `reason` at `who`.
    /// The operation is that of `F` on the asset that `A` names.
    fn can_hold(reason: &Self::Reason, who: &AccountId, amount: Self::Balance) -> (r: bool)
        ensures
            exists|asset: <F as fungibles::Inspect<AccountId>>::AssetId|
                call_ensures(A::get, (), asset) && call_ensures(
                    <F as fungibles::InspectHold<AccountId>>::can_hold,
                    (asset, reason, who, amount),
                    r,
                ),
    {
        <F as fungibles::InspectHold<AccountId>>::can_hold(A::get(), reason, who, amount)
    }
}

impl<
    F: fungibles::InspectFreeze<AccountId>,
    A: Get<<F as fungibles::Inspect<AccountId>>::AssetId>,
    AccountId,
> fungible::InspectFreeze<AccountId> for ItemOf<F, A, AccountId> {
    type Id = <F as fungibles::InspectFreeze<AccountId>>::Id;

    /// What the freeze `id` locks in the account of `who`.
    /// The operation is that of `F` on the asset that `A` names.
    fn balance_frozen(id: &Self::Id, who: &AccountId) -> (r: Self::Balance)
        ensures
            exists|asset: <F as fungibles::Inspect<AccountId>>::AssetId|
                call_ensures(A::get, (), asset) && call_ensures(
                    <F as fungibles::InspectFreeze<AccountId>>::balance_frozen,
                    (asset, id, who),
                    r,
                ),
    {
        <F as fungibles::InspectFreeze<AccountId>>::balance_frozen(A::get(), id, who)
    }

    /// The balance of `who` that a freeze can lock.
    /// The operation is that of `F` on the asset that `A` names.
    fn balance_freezable(who: &AccountId) -> (r: Self::Balance)
        ensures
            exists|asset: <F as fungibles::Inspect<AccountId>>::AssetId|
                call_ensures(A::get, (), asset) && call_ensures(
                    <F as fungibles::InspectFreeze<AccountId>>::balance_freezable,
                    (asset, who),
                    r,
                ),
    {
        <F as fungibles::InspectFreeze<AccountId>>::balance_freezable(A::get(), who)
    }

    /// Whether the freeze `id` can be placed on the account of `who`.
    /// The operation is that of `F` on the asset that `A` names.
    fn can_freeze(id: &Self::Id, who: &AccountId) -> (r: bool)
        ensures
            exists|asset: <F as fungibles::Inspect<AccountId>>::AssetId|
                call_ensures(A::get, (), asset) && call_ensures(
                    <F as fungibles::InspectFreeze<AccountId>>::can_freeze,
                    (asset, id, who),
                    r,
                ),
    {
        <F as fungibles::InspectFreeze<AccountId>>::can_freeze(A::get(), id, who)
    }
}

impl<
    F: fungibles::Unbalanced<AccountId>,
    A: Get<<F as fungibles::Inspect<AccountId>>::AssetId>,
    AccountId,
> fungible::Unbalanced<AccountId> for ItemOf<F, A, AccountId> {
    /// Hands the dust on to `F` as dust of the asset that `A` names.
    fn handle_dust(dust: fungible::Dust<AccountId, Self>)
        ensures
            exists|asset: <F as fungibles::Inspect<AccountId>>::AssetId|
                call_ensures(A::get, (), asset) && call_ensures(
                    <F as fungibles::Unbalanced<AccountId>>::handle_dust,
                    (fungibles::Dust(asset, dust.0),),
                    (),
                ),
    {
        <F as fungibles::Unbalanced<AccountId>>::handle_dust(fungibles::Dust(A::get(), dust.0))
    }

    /// Sets the balance of `who` and returns the dust that this leaves.
    /// The operation is that of `F` on the asset that `A` names.
    fn write_balance(
        who: &AccountId,
        amount: Self::Balance,
    ) -> (r: Result<Option<Self::Balance>, sp_runtime::DispatchError>)
        ensures
            exists|asset: <F as fungibles::Inspect<AccountId>>::AssetId|
                call_ensures(A::get, (), asset) && call_ensures(
                    <F as fungibles::Unbalanced<AccountId>>::write_balance,
                    (asset, who, amount),
                    r,
                ),
    {
        <F as fungibles::Unbalanced<AccountId>>::write_balance(A::get(), who, amount)
    }

    /// Sets the total issuance.
    /// The operation is that of `F` on the asset that `A` names.
    fn set_total_issuance(amount: Self::Balance)
        ensures
            exists|asset: <F as fungibles::Inspect<AccountId>>::AssetId|
                call_ensures(A::get, (), asset) && call_ensures(
                    <F as fungibles::Unbalanced<AccountId>>::set_total_issuance,
                    (asset, amount),
                    (),
                ),
    {
        <F as fungibles::Unbalanced<AccountId>>::set_total_issuance(A::get(), amount)
    }

    /// Reduces the balance of `who` and returns the amount it was reduced by.
    /// The operation is that of `F` on the asset that `A` names.
    fn decrease_balance(
        who: &AccountId,
        amount: Self::Balance,
        precision: Precision,
        preservation: Preservation,
        force: Fortitude,
    ) -> (r: Result<Self::Balance, sp_runtime::DispatchError>)
        ensures
            exists|asset: <F as fungibles::Inspect<AccountId>>::AssetId|
                call_ensures(A::get, (), asset) && call_ensures(
                    <F as fungibles::Unbalanced<AccountId>>::decrease_balance,
                    (asset, who, amount, precision, preservation, force),
                    r,
                ),
    {
        <F as fungibles::Unbalanced<AccountId>>::decrease_balance(
            A::get(),
            who,
            amount,
            precision,
            preservation,
            force,
        )
    }

    /// Raises the balance of `who` and returns the amount it was raised by.
    /// The operation is that of `F` on the asset that `A` names.
    fn increase_balance(
        who: &AccountId,
        amount: Self::Balance,
        precision: Precision,
    ) -> (r: Result<Self::Balance, sp_runtime::DispatchError>)
        ensures
            exists|asset: <F as fungibles::Inspect<AccountId>>::AssetId|
                call_ensures(A::get, (), asset) && call_ensures(
                    <F as fungibles::Unbalanced<AccountId>>::increase_balance,
                    (asset, who, amount, precision),
                    r,
                ),
    {
        <F as fungibles::Unbalanced<AccountId>>::increase_balance(
            A::get(),
            who,
            amount,
            precision,
        )
    }
}

impl<
    F: fungibles::UnbalancedHold<AccountId>,
    A: Get<<F as fungibles::Inspect<AccountId>>::AssetId>,
    AccountId,
> fungible::UnbalancedHold<AccountId> for ItemOf<F, A, AccountId> {
    /// Sets what is on hold for `reason` in the account of `who`.
    /// The operation is that of `F` on the asset that `A` names.
    fn set_balance_on_hold(
        reason: &Self::Reason,
        who: &AccountId,
        amount: Self::Balance,
    ) -> (r: Result<(), sp_runtime::DispatchError>)
        ensures
            exists|asset: <F as fungibles::Inspect<AccountId>>::AssetId|
                call_ensures(A::get, (), asset) && call_ensures(
                    <F as fungibles::UnbalancedHold<AccountId>>::set_balance_on_hold,
                    (asset, reason, who, amount),
                    r,
                ),
    {
        <F as fungibles::UnbalancedHold<AccountId>>::set_balance_on_hold(
            A::get(),
            reason,
            who,
            amount,
        )
    }

    /// Reduces what is on hold and returns the amount it was reduced by.
    /// The operation is that of `F` on the asset that `A` names.
    fn decrease_balance_on_hold(
        reason: &Self::Reason,
        who: &AccountId,
        amount: Self::Balance,
        precision: Precision,
    ) -> (r: Result<Self::Balance, sp_runtime::DispatchError>)
        ensures
            exists|asset: <F as fungibles::Inspect<AccountId>>::AssetId|
                call_ensures(A::get, (), asset) && call_ensures(
                    <F as fungibles::UnbalancedHold<AccountId>>::decrease_balance_on_hold,
                    (asset, reason, who, amount, precision),
                    r,
                ),
    {
        <F as fungibles::UnbalancedHold<AccountId>>::decrease_balance_on_hold(
            A::get(),
            reason,
            who,
            amount,
            precision,
        )
    }

    /// Raises what is on hold and returns the amount it was raised by.
    /// The operation is that of `F` on the asset that `A` names.
    fn increase_balance_on_hold(
        reason: &Self::Reason,
        who: &AccountId,
        amount: Self::Balance,
        precision: Precision,
    ) -> (r: Result<Self::Balance, sp_runtime::DispatchError>)
        ensures
            exists|asset: <F as fungibles::Inspect<AccountId>>::AssetId|
                call_ensures(A::get, (), asset) && call_ensures(
                    <F as fungibles::UnbalancedHold<AccountId>>::increase_balance_on_hold,
                    (asset, reason, who, amount, precision),
                    r,
                ),
    {
        <F as fungibles::UnbalancedHold<AccountId>>::increase_balance_on_hold(
            A::get(),
            reason,
            who,
            amount,
            precision,
        )
    }
}

impl<
    F: fungibles::Mutate<AccountId>,
    A: Get<<F as fungibles::Inspect<AccountId>>::AssetId>,
    AccountId: Eq,
> fungible::Mutate<AccountId> for ItemOf<F, A, AccountId> {
    /// Creates `amount` in the account of `who`.
    /// The operation is that of `F` on the asset that `A` names.
    fn mint_into(
        who: &AccountId,
        amount: Self::Balance,
    ) -> (r: Result<Self::Balance, sp_runtime::DispatchError>)
        ensures
            exists|asset: <F as fungibles::Inspect<AccountId>>::AssetId|
                call_ensures(A::get, (), asset) && call_ensures(
                    <F as fungibles::Mutate<AccountId>>::mint_into,
                    (asset, who, amount),
                    r,
                ),
    {
        <F as fungibles::Mutate<AccountId>>::mint_into(A::get(), who, amount)
    }

    /// Destroys up to `amount` in the account of `who`.
    /// The operation is that of `F` on the asset that `A` names.
    fn burn_from(
        who: &AccountId,
        amount: Self::Balance,
        preservation: Preservation,
        precision: Precision,
        force: Fortitude,
    ) -> (r: Result<Self::Balance, sp_runtime::DispatchError>)
        ensures
            exists|asset: <F as fungibles::Inspect<AccountId>>::AssetId|
                call_ensures(A::get, (), asset) && call_ensures(
                    <F as fungibles::Mutate<AccountId>>::burn_from,
                    (asset, who, amount, preservation, precision, force),
                    r,
                ),
    {
        <F as fungibles::Mutate<AccountId>>::burn_from(
            A::get(),
            who,
            amount,
            preservation,
            precision,
            force,
        )
    }

    /// Takes `amount` out of the account of `who` and out of the issuance.
    /// The operation is that of `F` on the asset that `A` names.
    fn shelve(
        who: &AccountId,
        amount: Self::Balance,
    ) -> (r: Result<Self::Balance, sp_runtime::DispatchError>)
        ensures
            exists|asset: <F as fungibles::Inspect<AccountId>>::AssetId|
                call_ensures(A::get, (), asset) && call_ensures(
                    <F as fungibles::Mutate<AccountId>>::shelve,
                    (asset, who, amount),
                    r,
                ),
    {
        <F as fungibles::Mutate<AccountId>>::shelve(A::get(), who, amount)
    }

    /// Puts `amount` back into the account of `who`.
    /// The operation is that of `F` on the asset that `A` names.
    fn restore(
        who: &AccountId,
        amount: Self::Balance,
    ) -> (r: Result<Self::Balance, sp_runtime::DispatchError>)
        ensures
            exists|asset: <F as fungibles::Inspect<AccountId>>::AssetId|
                call_ensures(A::get, (), asset) && call_ensures(
                    <F as fungibles::Mutate<AccountId>>::restore,
                    (asset, who, amount),
                    r,
                ),
    {
        <F as fungibles::Mutate<AccountId>>::restore(A::get(), who, amount)
    }

    /// Moves `amount` from `source` to `dest`.
    /// The operation is that of `F` on the asset that `A` names.
    fn transfer(
        source: &AccountId,
        dest: &AccountId,
        amount: Self::Balance,
        preservation: Preservation,
    ) -> (r: Result<Self::Balance, sp_runtime::DispatchError>)
        ensures
            exists|asset: <F as fungibles::Inspect<AccountId>>::AssetId|
                call_ensures(A::get, (), asset) && call_ensures(
                    <F as fungibles::Mutate<AccountId>>::transfer,
                    (asset, source, dest, amount, preservation),
                    r,
                ),
    {
        <F as fungibles::Mutate<AccountId>>::transfer(
            A::get(),
            source,
            dest,
            amount,
            preservation,
        )
    }

    /// Brings the balance of `who` as near to `amount` as it can be.
    /// The operation is that of `F` on the asset that `A` names.
    fn set_balance(who: &AccountId, amount: Self::Balance) -> (r: Self::Balance)
        ensures
            exists|asset: <F as fungibles::Inspect<AccountId>>::AssetId|
                call_ensures(A::get, (), asset) && call_ensures(
                    <F as fungibles::Mutate<AccountId>>::set_balance,
                    (asset, who, amount),
                    r,
                ),
    {
        <F as fungibles::Mutate<AccountId>>::set_balance(A::get(), who, amount)
    }
}

impl<
    F: fungibles::MutateHold<AccountId>,
    A: Get<<F as fungibles::Inspect<AccountId>>::AssetId>,
    AccountId,
> fungible::MutateHold<AccountId> for ItemOf<F, A, AccountId> {
    /// Puts `amount` of the balance of `who` on hold for `reason`.
    /// The operation is that of `F` on the asset that `A` names.
    fn hold(
        reason: &Self::Reason,
        who: &AccountId,
        amount: Self::Balance,
    ) -> (r: Result<(), sp_runtime::DispatchError>)
        ensures
            exists|asset: <F as fungibles::Inspect<AccountId>>::AssetId|
                call_ensures(A::get, (), asset) && call_ensures(
                    <F as fungibles::MutateHold<AccountId>>::hold,
                    (asset, reason, who, amount),
                    r,
                ),
    {
        <F as fungibles::MutateHold<AccountId>>::hold(A::get(), reason, who, amount)
    }

    /// Releases up to `amount` that is on hold for `reason`.
    /// The operation is that of `F` on the asset that `A` names.
    fn release(
        reason: &Self::Reason,
        who: &AccountId,
        amount: Self::Balance,
        precision: Precision,
    ) -> (r: Result<Self::Balance, sp_runtime::DispatchError>)
        ensures
            exists|asset: <F as fungibles::Inspect<AccountId>>::AssetId|
                call_ensures(A::get, (), asset) && call_ensures(
                    <F as fungibles::MutateHold<AccountId>>::release,
                    (asset, reason, who, amount, precision),
                    r,
                ),
    {
        <F as fungibles::MutateHold<AccountId>>::release(
            A::get(),
            reason,
            who,
            amount,
            precision,
        )
    }

    /// Destroys up to `amount` that is on hold for `reason`.
    /// The operation is that of `F` on the asset that `A` names.
    fn burn_held(
        reason: &Self::Reason,
        who: &AccountId,
        amount: Self::Balance,
        precision: Precision,
        force: Fortitude,
    ) -> (r: Result<Self::Balance, sp_runtime::DispatchError>)
        ensures
            exists|asset: <F as fungibles::Inspect<AccountId>>::AssetId|
                call_ensures(A::get, (), asset) && call_ensures(
                    <F as fungibles::MutateHold<AccountId>>::burn_held,
                    (asset, reason, who, amount, precision, force),
                    r,
                ),
    {
        <F as fungibles::MutateHold<AccountId>>::burn_held(
            A::get(),
            reason,
            who,
            amount,
            precision,
            force,
        )
    }

    /// Moves an amount that is on hold at `source` to `dest`.
    /// The operation is that of `F` on the asset that `A` names.
    fn transfer_on_hold(
        reason: &Self::Reason,
        source: &AccountId,
        dest: &AccountId,
        amount: Self::Balance,
        precision: Precision,
        mode: Restriction,
        force: Fortitude,
    ) -> (r: Result<Self::Balance, sp_runtime::DispatchError>)
        ensures
            exists|asset: <F as fungibles::Inspect<AccountId>>::AssetId|
                call_ensures(A::get, (), asset) && call_ensures(
                    <F as fungibles::MutateHold<AccountId>>::transfer_on_hold,
                    (asset, reason, source, dest, amount, precision, mode, force),
                    r,
                ),
    {
        <F as fungibles::MutateHold<AccountId>>::transfer_on_hold(
            A::get(),
            reason,
            source,
            dest,
            amount,
            precision,
            mode,
            force,
        )
    }

    /// Moves a free amount from `source` to `dest` and holds it there.
    /// The operation is that of `F` on the asset that `A` names.
    fn transfer_and_hold(
        reason: &Self::Reason,
        source: &AccountId,
        dest: &AccountId,
        amount: Self::Balance,
        precision: Precision,
        preservation: Preservation,
        force: Fortitude,
    ) -> (r: Result<Self::Balance, sp_runtime::DispatchError>)
        ensures
            exists|asset: <F as fungibles::Inspect<AccountId>>::AssetId|
                call_ensures(A::get, (), asset) && call_ensures(
                    <F as fungibles::MutateHold<AccountId>>::transfer_and_hold,
                    (asset, reason, source, dest, amount, precision, preservation, force),
                    r,
                ),
    {
        <F as fungibles::MutateHold<AccountId>>::transfer_and_hold(
            A::get(),
            reason,
            source,
            dest,
            amount,
            precision,
            preservation,
            force,
        )
    }
}

impl<
    F: fungibles::MutateFreeze<AccountId>,
    A: Get<<F as fungibles::Inspect<AccountId>>::AssetId>,
    AccountId,
> fungible::MutateFreeze<AccountId> for ItemOf<F, A, AccountId> {
    /// Makes the freeze `id` lock exactly `amount`.
    /// The operation is that of `F` on the asset that `A` names.
    fn set_freeze(
        id: &Self::Id,
        who: &AccountId,
        amount: Self::Balance,
    ) -> (r: Result<(), sp_runtime::DispatchError>)
        ensures
            exists|asset: <F as fungibles::Inspect<AccountId>>::AssetId|
                call_ensures(A::get, (), asset) && call_ensures(
                    <F as fungibles::MutateFreeze<AccountId>>::set_freeze,
                    (asset, id, who, amount),
                    r,
                ),
    {
        <F as fungibles::MutateFreeze<AccountId>>::set_freeze(A::get(), id, who, amount)
    }

    /// Makes the freeze `id` lock at least `amount`.
    /// The operation is that of `F` on the asset that `A` names.
    fn extend_freeze(
        id: &Self::Id,
        who: &AccountId,
        amount: Self::Balance,
    ) -> (r: Result<(), sp_runtime::DispatchError>)
        ensures
            exists|asset: <F as fungibles::Inspect<AccountId>>::AssetId|
                call_ensures(A::get, (), asset) && call_ensures(
                    <F as fungibles::MutateFreeze<AccountId>>::extend_freeze,
                    (asset, id, who, amount),
                    r,
                ),
    {
        <F as fungibles::MutateFreeze<AccountId>>::extend_freeze(A::get(), id, who, amount)
    }

    /// Lifts the freeze `id`.
    /// The operation is that of `F` on the asset that `A` names.
    fn thaw(id: &Self::Id, who: &AccountId) -> (r: Result<(), sp_runtime::DispatchError>)
        ensures
            exists|asset: <F as fungibles::Inspect<AccountId>>::AssetId|
                call_ensures(A::get, (), asset) && call_ensures(
                    <F as fungibles::MutateFreeze<AccountId>>::thaw,
                    (asset, id, who),
                    r,
                ),
    {
        <F as fungibles::MutateFreeze<AccountId>>::thaw(A::get(), id, who)
    }
}

/// Hands the imbalances of a single-asset token to the handler of the many-asset
/// token that it is taken from.
pub struct ConvertImbalanceDropHandler<AccountId, Balance, AssetIdType, AssetId, Handler>(
    core::marker::PhantomData<(AccountId, Balance, AssetIdType, AssetId, Handler)>,
);

impl<
    AccountId,
    Balance,
    AssetIdType,
    AssetId: Get<AssetIdType>,
    Handler: fungibles::HandleImbalanceDrop<AssetIdType, Balance>,
> fungible::HandleImbalanceDrop<Balance> for ConvertImbalanceDropHandler<
    AccountId,
    Balance,
    AssetIdType,
    AssetId,
    Handler,
> {
    /// Hands `amount` to `Handler` as an amount of the asset that `AssetId` names.
    fn handle(amount: Balance)
        ensures
            exists|asset: AssetIdType|
                call_ensures(AssetId::get, (), asset) && call_ensures(
                    Handler::handle,
                    (asset, amount),
                    (),
                ),
    {
        Handler::handle(AssetId::get(), amount)
    }
}

impl<
    F: fungibles::InspectHold<AccountId> + fungibles::DoneSlash<
        <F as fungibles::Inspect<AccountId>>::AssetId,
        <F as fungibles::InspectHold<AccountId>>::Reason,
        AccountId,
        <F as fungibles::Inspect<AccountId>>::Balance,
    >,
    A: Get<<F as fungibles::Inspect<AccountId>>::AssetId>,
    AccountId,
> fungible::DoneSlash<
    <F as fungibles::InspectHold<AccountId>>::Reason,
    AccountId,
    <F as fungibles::Inspect<AccountId>>::Balance,
> for ItemOf<F, A, AccountId> {
    /// Tells `F` that an amount of the asset that `A` names was slashed.
    fn done_slash(
        reason: &<F as fungibles::InspectHold<AccountId>>::Reason,
        who: &AccountId,
        amount: <F as fungibles::Inspect<AccountId>>::Balance,
    )
        ensures
            exists|asset: <F as fungibles::Inspect<AccountId>>::AssetId|
                call_ensures(A::get, (), asset) && call_ensures(
                    <F as fungibles::DoneSlash<
                        <F as fungibles::Inspect<AccountId>>::AssetId,
                        <F as fungibles::InspectHold<AccountId>>::Reason,
                        AccountId,
                        <F as fungibles::Inspect<AccountId>>::Balance,
                    >>::done_slash,
                    (asset, reason, who, amount),
                    (),
                ),
    {
        <F as fungibles::DoneSlash<
            <F as fungibles::Inspect<AccountId>>::AssetId,
            <F as fungibles::InspectHold<AccountId>>::Reason,
            AccountId,
            <F as fungibles::Inspect<AccountId>>::Balance,
        >>::done_slash(A::get(), reason, who, amount)
    }
}

} // verus!
