//! Conversions between the two forms of an election result: assignments that give each
//! target a ratio of the voter's stake, and assignments that give it an absolute
//! amount.

use crate::vectors::copy_of;
use vstd::prelude::*;

verus! {

/// The stake that a voter votes with.
pub type VoteWeight = u64;

/// A balance that is wide enough to hold sums of stakes.
pub type ExtendedBalance = u128;

/// The number of parts that make a whole.
pub const ACCURACY: u32 = 1_000_000_000;

/// A ratio in parts per billion.
#[derive(Clone, Copy, PartialEq, Eq, Debug)]
pub struct Perbill(pub u32);

impl Perbill {
    /// The number of parts of the ratio. A ratio never exceeds the whole.
    pub open spec fn parts(self) -> u32 {
        if self.0 > ACCURACY {
            ACCURACY
        } else {
            self.0
        }
    }

    /// The ratio of `parts` in a billion, or the whole if `parts` is more than that.
    pub fn from_parts(parts: u32) -> (ratio: Perbill)
        ensures
            ratio.0 == ratio.parts(),
            ratio.parts() == if parts > ACCURACY {
                ACCURACY
            } else {
                parts
            },
    {
        if parts > ACCURACY {
            Perbill(ACCURACY)
        } else {
            Perbill(parts)
        }
    }

    /// The number of parts of the ratio.
    pub fn deconstruct(self) -> (parts: u32)
        ensures
            parts == self.parts(),
    {
        if self.0 > ACCURACY {
            ACCURACY
        } else {
            self.0
        }
    }

    /// The whole.
    pub fn one() -> (ratio: Perbill)
        ensures
            ratio.parts() == ACCURACY,
    {
        Perbill(ACCURACY)
    }

    /// Nothing.
    pub fn zero() -> (ratio: Perbill)
        ensures
            ratio.parts() == 0,
    {
        Perbill(0)
    }

    /// Whether the ratio is nothing.
    pub fn is_zero(&self) -> (b: bool)
        ensures
            b == (self.parts() == 0),
    {
        self.0 == 0
    }
}

/// The share `parts` per billion of `x`, rounded to the nearest whole number, and down
/// where two are equally near.
pub open spec fn perbill_of(parts: u32, x: u128) -> u128 {
    let whole = (x / (ACCURACY as u128)) * parts;
    let rest = (x % (ACCURACY as u128)) * parts;
    let rounded = rest / (ACCURACY as int) + if rest % (ACCURACY as int) > ACCURACY / 2 {
        1int
    } else {
        0int
    };
    (whole + rounded) as u128
}

/// The parts per billion that `p` is of `q`, rounded down. The whole where `q` is zero
/// or `p` is more than `q`.
pub open spec fn rational_parts(p: u128, q: u128) -> u32 {
    if q == 0 || p > q {
        ACCURACY
    } else {
        ((ACCURACY as int) * p / (q as int)) as u32
    }
}

/// Calls the multiplication of a `sp_arithmetic::Perbill` with a `u128`. By its
/// source, the product is computed without overflow from the quotient and the
/// remainder of the balance by a billion, and the part that comes from the remainder
/// is rounded to the nearest whole number, down where two are equally near.
#[verifier::external_body]
fn perbill_mul(ratio: Perbill, stake: ExtendedBalance) -> (share: ExtendedBalance)
    ensures
        share == perbill_of(ratio.parts(), stake),
{
    sp_arithmetic::Perbill::from_parts(ratio.0) * stake
}

/// Calls `sp_arithmetic::Perbill::from_rational` on two `u128` values. By its
/// documentation it approximates `p / q` and always rounds down; by its source the
/// result is the whole where `q` is zero or `p` is more than `q`.
#[verifier::external_body]
fn perbill_from_rational(p: ExtendedBalance, q: ExtendedBalance) -> (ratio: Perbill)
    ensures
        ratio.0 == ratio.parts(),
        ratio.parts() == rational_parts(p, q),
{
    Perbill(sp_arithmetic::Perbill::from_rational(p, q).deconstruct())
}

/// What `sp_arithmetic` makes of `stakes` when it normalizes them so that they sum up
/// to `target`: the corrected stakes, or the reason why it cannot be done.
pub uninterp spec fn normalized_stakes(stakes: Seq<u128>, target: u128) -> Result<
    Seq<u128>,
    Seq<char>,
>;

/// What `sp_arithmetic` makes of ratios, given by their parts, when it normalizes them
/// so that they sum up to the ratio of `target` parts.
pub uninterp spec fn normalized_ratios(parts: Seq<u32>, target: u32) -> Result<
    Seq<u32>,
    Seq<char>,
>;

/// Calls `sp_arithmetic::Normalizable::normalize` on a vector of `u128`. The result
/// depends on the stakes, their order and the target alone. The time that the call
/// takes grows with the amount by which the sum of the stakes exceeds the target.
#[verifier::external_body]
fn normalize_stakes(stakes: &Vec<ExtendedBalance>, target: ExtendedBalance) -> (r: Result<
    Vec<ExtendedBalance>,
    &'static str,
>)
    ensures
        match r {
            Ok(normalized) => normalized_stakes(stakes@, target) == Ok::<Seq<u128>, Seq<char>>(
                normalized@,
            ),
            Err(reason) => normalized_stakes(stakes@, target) == Err::<Seq<u128>, Seq<char>>(
                reason@,
            ),
        },
{
    sp_arithmetic::Normalizable::normalize(stakes, target)
}

/// Calls `sp_arithmetic::Normalizable::normalize` on a vector of
/// `sp_arithmetic::Perbill`. The result depends on the ratios, their order and the
/// target alone. What comes out are ratios again, so none exceeds the whole.
#[verifier::external_body]
fn normalize_ratios(parts: &Vec<u32>, target: u32) -> (r: Result<Vec<u32>, &'static str>)
    ensures
        match r {
            Ok(normalized) => normalized_ratios(parts@, target) == Ok::<Seq<u32>, Seq<char>>(
                normalized@,
            ) && forall|i: int| 0 <= i < normalized@.len() ==> normalized@[i] <= ACCURACY,
            Err(reason) => normalized_ratios(parts@, target) == Err::<Seq<u32>, Seq<char>>(
                reason@,
            ),
        },
{
    let ratios: Vec<sp_arithmetic::Perbill> = parts.iter().map(
        |p| sp_arithmetic::Perbill::from_parts(*p),
    ).collect();
    sp_arithmetic::Normalizable::normalize(
        &ratios,
        sp_arithmetic::Perbill::from_parts(target),
    ).map(|normalized| normalized.into_iter().map(|p| p.deconstruct()).collect())
}

/// Why a conversion has failed.
#[derive(Clone, Copy, PartialEq, Eq, Debug)]
pub enum Error {
    /// The distribution of a voter could not be normalized.
    ArithmeticError(&'static str),
}

/// A voter's stake assignment among a set of targets, as ratios.
#[derive(Clone, PartialEq, Eq, Debug)]
pub struct Assignment<AccountId> {
    /// The voter.
    pub who: AccountId,
    /// The targets and the ratio of the voter's stake that each of them gets.
    pub distribution: Vec<(AccountId, Perbill)>,
}

/// A voter's stake assignment among a set of targets, as absolute amounts.
#[derive(Clone, PartialEq, Eq, Debug)]
pub struct StakedAssignment<AccountId> {
    /// The voter.
    pub who: AccountId,
    /// The targets and the amount of the voter's stake that each of them gets.
    pub distribution: Vec<(AccountId, ExtendedBalance)>,
}

/// The amounts that `stake` gives when it is distributed by `distribution`. Targets
/// whose ratio is nothing are left out.
pub open spec fn staked_distribution<AccountId>(
    distribution: Seq<(AccountId, Perbill)>,
    stake: ExtendedBalance,
) -> Seq<(AccountId, ExtendedBalance)>
    decreases distribution.len(),
{
    if distribution.len() == 0 {
        Seq::empty()
    } else {
        let rest = staked_distribution(distribution.drop_last(), stake);
        let (target, ratio) = distribution.last();
        if ratio.parts() == 0 {
            rest
        } else {
            rest.push((target, perbill_of(ratio.parts(), stake)))
        }
    }
}

/// The saturating sum of the amounts of `distribution`.
pub open spec fn total_of<AccountId>(distribution: Seq<(AccountId, ExtendedBalance)>) -> u128
    decreases distribution.len(),
{
    if distribution.len() == 0 {
        0
    } else {
        let rest = total_of(distribution.drop_last());
        if rest + distribution.last().1 > u128::MAX {
            u128::MAX
        } else {
            (rest + distribution.last().1) as u128
        }
    }
}

/// The targets of `distribution` with the parts per billion that each amount is of
/// `stake`. Targets that get no part are left out.
pub open spec fn ratio_distribution<AccountId>(
    distribution: Seq<(AccountId, ExtendedBalance)>,
    stake: ExtendedBalance,
) -> Seq<(AccountId, u32)>
    decreases distribution.len(),
{
    if distribution.len() == 0 {
        Seq::empty()
    } else {
        let rest = ratio_distribution(distribution.drop_last(), stake);
        let (target, amount) = distribution.last();
        if rational_parts(amount, stake) == 0 {
            rest
        } else {
            rest.push((target, rational_parts(amount, stake)))
        }
    }
}

/// The targets of a ratio distribution with the parts of their ratios.
pub open spec fn parts_of<AccountId>(distribution: Seq<(AccountId, Perbill)>) -> Seq<
    (AccountId, u32),
> {
    distribution.map_values(|edge: (AccountId, Perbill)| (edge.0, edge.1.parts()))
}

/// `distribution` with the values of `corrected` in place of its own, position by
/// position, as far as `corrected` reaches.
pub open spec fn with_values<AccountId, V>(
    distribution: Seq<(AccountId, V)>,
    corrected: Seq<V>,
) -> Seq<(AccountId, V)> {
    Seq::new(
        distribution.len(),
        |i: int|
            if i < corrected.len() {
                (distribution[i].0, corrected[i])
            } else {
                distribution[i]
            },
    )
}

/// What normalizing a staked distribution around `stake` gives: the distribution with
/// the corrected amounts, or the reason why it cannot be done.
pub open spec fn normalized_staked<AccountId>(
    distribution: Seq<(AccountId, ExtendedBalance)>,
    stake: ExtendedBalance,
) -> Result<Seq<(AccountId, ExtendedBalance)>, Seq<char>> {
    match normalized_stakes(
        distribution.map_values(|edge: (AccountId, ExtendedBalance)| edge.1),
        stake,
    ) {
        Ok(corrected) => Ok(with_values(distribution, corrected)),
        Err(reason) => Err(reason),
    }
}

/// What normalizing a ratio distribution, given by its parts, around the whole gives.
pub open spec fn normalized_parts<AccountId>(distribution: Seq<(AccountId, u32)>) -> Result<
    Seq<(AccountId, u32)>,
    Seq<char>,
> {
    match normalized_ratios(
        distribution.map_values(|edge: (AccountId, u32)| edge.1),
        ACCURACY,
    ) {
        Ok(corrected) => Ok(with_values(distribution, corrected)),
        Err(reason) => Err(reason),
    }
}

impl<AccountId: Copy> Assignment<AccountId> {
    /// Converts the ratios of the assignment into amounts of `stake`. Targets whose
    /// ratio is nothing are left out.
    pub fn into_staked(self, stake: ExtendedBalance) -> (staked: StakedAssignment<AccountId>)
        ensures
            staked.who == self.who,
            staked.distribution@ == staked_distribution(self.distribution@, stake),
    {
        self.to_staked(stake)
    }

    /// The assignment with its ratios converted into amounts of `stake`.
    pub fn to_staked(&self, stake: ExtendedBalance) -> (staked: StakedAssignment<AccountId>)
        ensures
            staked.who == self.who,
            staked.distribution@ == staked_distribution(self.distribution@, stake),
    {
        let mut distribution: Vec<(AccountId, ExtendedBalance)> = Vec::new();
        let mut i: usize = 0;
        while i < self.distribution.len()
            invariant
                0 <= i <= self.distribution@.len(),
                distribution@ == staked_distribution(self.distribution@.take(i as int), stake),
            decreases self.distribution@.len() - i,
        {
            assert(self.distribution@.take(i + 1).drop_last() =~= self.distribution@.take(
                i as int,
            ));
            let (target, ratio) = self.distribution[i];
            if !ratio.is_zero() {
                distribution.push((target, perbill_mul(ratio, stake)));
            }
            i = i + 1;
        }
        assert(self.distribution@.take(i as int) =~= self.distribution@);
        StakedAssignment { who: self.who, distribution }
    }

    /// Corrects the ratios so that they sum up to the whole. Where that cannot be
    /// done, the assignment stays as it is and the reason is returned.
    pub fn try_normalize(&mut self) -> (r: Result<(), &'static str>)
        ensures
            final(self).who == old(self).who,
            match normalized_parts(parts_of(old(self).distribution@)) {
                Ok(corrected) => r is Ok && parts_of(final(self).distribution@) == corrected,
                Err(reason) => r matches Err(message) && message@ == reason
                    && final(self).distribution == old(self).distribution,
            },
    {
        let mut parts: Vec<u32> = Vec::new();
        let mut i: usize = 0;
        while i < self.distribution.len()
            invariant
                0 <= i <= self.distribution@.len(),
                parts@ == parts_of(self.distribution@).map_values(
                    |edge: (AccountId, u32)| edge.1,
                ).take(i as int),
            decreases self.distribution@.len() - i,
        {
            parts.push(self.distribution[i].1.deconstruct());
            i = i + 1;
            assert(parts@ =~= parts_of(self.distribution@).map_values(
                |edge: (AccountId, u32)| edge.1,
            ).take(i as int));
        }
        assert(parts@ =~= parts_of(self.distribution@).map_values(
            |edge: (AccountId, u32)| edge.1,
        ));
        match normalize_ratios(&parts, ACCURACY) {
            Err(reason) => Err(reason),
            Ok(corrected) => {
                let ghost before = self.distribution@;
                let mut distribution: Vec<(AccountId, Perbill)> = Vec::new();
                let mut j: usize = 0;
                while j < self.distribution.len()
                    invariant
                        0 <= j <= self.distribution@.len(),
                        self.distribution@ == before,
                        distribution@.len() == j,
                        forall|k: int| 0 <= k < corrected@.len() ==> corrected@[k] <= ACCURACY,
                        forall|k: int|
                            0 <= k < j ==> (#[trigger] distribution@[k]).0 == before[k].0
                                && distribution@[k].1.parts() == with_values(
                                parts_of(before),
                                corrected@,
                            )[k].1,
                    decreases self.distribution@.len() - j,
                {
                    let (target, old_ratio) = self.distribution[j];
                    if j < corrected.len() {
                        distribution.push((target, Perbill::from_parts(corrected[j])));
                    } else {
                        distribution.push((target, old_ratio));
                    }
                    j = j + 1;
                }
                self.distribution = distribution;
                assert(parts_of(self.distribution@) =~= with_values(
                    parts_of(before),
                    corrected@,
                ));
                Ok(())
            },
        }
    }
}

impl<AccountId: Copy> StakedAssignment<AccountId> {
    /// The saturating sum of the amounts of the assignment.
    pub fn total(&self) -> (total: ExtendedBalance)
        ensures
            total == total_of(self.distribution@),
    {
        let mut total: u128 = 0;
        let mut i: usize = 0;
        while i < self.distribution.len()
            invariant
                0 <= i <= self.distribution@.len(),
                total == total_of(self.distribution@.take(i as int)),
            decreases self.distribution@.len() - i,
        {
            assert(self.distribution@.take(i + 1).drop_last() =~= self.distribution@.take(
                i as int,
            ));
            total = total.saturating_add(self.distribution[i].1);
            i = i + 1;
        }
        assert(self.distribution@.take(i as int) =~= self.distribution@);
        total
    }

    /// Converts the amounts of the assignment into ratios of their total. Targets
    /// that get no part of it are left out.
    pub fn into_assignment(self) -> (assignment: Assignment<AccountId>)
        ensures
            assignment.who == self.who,
            parts_of(assignment.distribution@) == ratio_distribution(
                self.distribution@,
                total_of(self.distribution@),
            ),
    {
        self.to_assignment()
    }

    /// The assignment with its amounts converted into ratios of their total.
    pub fn to_assignment(&self) -> (assignment: Assignment<AccountId>)
        ensures
            assignment.who == self.who,
            parts_of(assignment.distribution@) == ratio_distribution(
                self.distribution@,
                total_of(self.distribution@),
            ),
    {
        let stake = self.total();
        let mut distribution: Vec<(AccountId, Perbill)> = Vec::new();
        let mut i: usize = 0;
        while i < self.distribution.len()
            invariant
                0 <= i <= self.distribution@.len(),
                parts_of(distribution@) == ratio_distribution(
                    self.distribution@.take(i as int),
                    stake,
                ),
            decreases self.distribution@.len() - i,
        {
            assert(self.distribution@.take(i + 1).drop_last() =~= self.distribution@.take(
                i as int,
            ));
            let (target, amount) = self.distribution[i];
            let per_thing = perbill_from_rational(amount, stake);
            let ghost before = distribution@;
            if !per_thing.is_zero() {
                distribution.push((target, per_thing));
                assert(parts_of(distribution@) =~= parts_of(before).push(
                    (target, per_thing.parts()),
                ));
            }
            i = i + 1;
        }
        assert(self.distribution@.take(i as int) =~= self.distribution@);
        Assignment { who: self.who, distribution }
    }

    /// Corrects the amounts so that they sum up to `stake`. Where that cannot be
    /// done, the assignment stays as it is and the reason is returned.
    pub fn try_normalize(&mut self, stake: ExtendedBalance) -> (r: Result<(), &'static str>)
        ensures
            final(self).who == old(self).who,
            match normalized_staked(old(self).distribution@, stake) {
                Ok(corrected) => r is Ok && final(self).distribution@ == corrected,
                Err(reason) => r matches Err(message) && message@ == reason
                    && final(self).distribution == old(self).distribution,
            },
    {
        let mut stakes: Vec<ExtendedBalance> = Vec::new();
        let mut i: usize = 0;
        while i < self.distribution.len()
            invariant
                0 <= i <= self.distribution@.len(),
                stakes@ == self.distribution@.map_values(
                    |edge: (AccountId, ExtendedBalance)| edge.1,
                ).take(i as int),
            decreases self.distribution@.len() - i,
        {
            stakes.push(self.distribution[i].1);
            i = i + 1;
            assert(stakes@ =~= self.distribution@.map_values(
                |edge: (AccountId, ExtendedBalance)| edge.1,
            ).take(i as int));
        }
        assert(stakes@ =~= self.distribution@.map_values(
            |edge: (AccountId, ExtendedBalance)| edge.1,
        ));
        match normalize_stakes(&stakes, stake) {
            Err(reason) => Err(reason),
            Ok(corrected) => {
                let ghost before = self.distribution@;
                let mut distribution: Vec<(AccountId, ExtendedBalance)> = Vec::new();
                let mut j: usize = 0;
                while j < self.distribution.len()
                    invariant
                        0 <= j <= self.distribution@.len(),
                        self.distribution@ == before,
                        distribution@.len() == j,
                        forall|k: int|
                            0 <= k < j ==> #[trigger] distribution@[k] == with_values(
                                before,
                                corrected@,
                            )[k],
                    decreases self.distribution@.len() - j,
                {
                    let (target, amount) = self.distribution[j];
                    if j < corrected.len() {
                        distribution.push((target, corrected[j]));
                    } else {
                        distribution.push((target, amount));
                    }
                    j = j + 1;
                }
                self.distribution = distribution;
                assert(self.distribution@ =~= with_values(before, corrected@));
                Ok(())
            },
        }
    }
}

/// Whether `staked` is what `ratio` gives with a stake that `stake_of` returns for its
/// voter.
pub open spec fn staked_from<AccountId, FS: Fn(&AccountId) -> VoteWeight>(
    ratio: Assignment<AccountId>,
    stake_of: FS,
    staked: StakedAssignment<AccountId>,
) -> bool {
    staked.who == ratio.who && exists|stake: VoteWeight|
        #![trigger call_ensures(stake_of, (&ratio.who,), stake)]
        call_ensures(stake_of, (&ratio.who,), stake) && staked.distribution@
            == staked_distribution(ratio.distribution@, stake as u128)
}

/// Converts a vector of ratio assignments into ones with absolute budget value. The
/// result is not normalized.
pub fn assignment_ratio_to_staked<AccountId: Copy, FS: Fn(&AccountId) -> VoteWeight>(
    ratios: Vec<Assignment<AccountId>>,
    stake_of: FS,
) -> (staked: Vec<StakedAssignment<AccountId>>)
    requires
        forall|i: int| 0 <= i < ratios@.len() ==> call_requires(stake_of, (&ratios@[i].who,)),
    ensures
        staked@.len() == ratios@.len(),
        forall|i: int|
            0 <= i < ratios@.len() ==> staked_from(ratios@[i], stake_of, #[trigger] staked@[i]),
{
    ratios_to_staked(&ratios, &stake_of)
}

/// Converts every assignment of `ratios` with the stake that `stake_of` returns for
/// its voter.
fn ratios_to_staked<AccountId: Copy, FS: Fn(&AccountId) -> VoteWeight>(
    ratios: &Vec<Assignment<AccountId>>,
    stake_of: &FS,
) -> (staked: Vec<StakedAssignment<AccountId>>)
    requires
        forall|i: int| 0 <= i < ratios@.len() ==> call_requires(*stake_of, (&ratios@[i].who,)),
    ensures
        staked@.len() == ratios@.len(),
        forall|i: int|
            0 <= i < ratios@.len() ==> staked_from(ratios@[i], *stake_of, #[trigger] staked@[i]),
{
    let mut staked: Vec<StakedAssignment<AccountId>> = Vec::new();
    let mut i: usize = 0;
    while i < ratios.len()
        invariant
            0 <= i <= ratios@.len(),
            staked@.len() == i,
            forall|k: int| 0 <= k < ratios@.len() ==> call_requires(*stake_of, (&ratios@[k].who,)),
            forall|k: int|
                0 <= k < i ==> staked_from(ratios@[k], *stake_of, #[trigger] staked@[k]),
        decreases ratios@.len() - i,
    {
        let stake = stake_of(&ratios[i].who);
        staked.push(ratios[i].to_staked(stake as u128));
        i = i + 1;
    }
    staked
}

/// Converts a vector of staked assignments into ones with ratio values. The result is
/// not normalized.
pub fn assignment_staked_to_ratio<AccountId: Copy>(
    staked: Vec<StakedAssignment<AccountId>>,
) -> (ratios: Vec<Assignment<AccountId>>)
    ensures
        ratios@.len() == staked@.len(),
        forall|i: int|
            0 <= i < staked@.len() ==> (#[trigger] ratios@[i]).who == staked@[i].who && parts_of(
                ratios@[i].distribution@,
            ) == ratio_distribution(
                staked@[i].distribution@,
                total_of(staked@[i].distribution@),
            ),
{
    let mut ratios: Vec<Assignment<AccountId>> = Vec::new();
    let mut i: usize = 0;
    while i < staked.len()
        invariant
            0 <= i <= staked@.len(),
            ratios@.len() == i,
            forall|k: int|
                0 <= k < i ==> (#[trigger] ratios@[k]).who == staked@[k].who && parts_of(
                    ratios@[k].distribution@,
                ) == ratio_distribution(
                    staked@[k].distribution@,
                    total_of(staked@[k].distribution@),
                ),
        decreases staked@.len() - i,
    {
        ratios.push(staked[i].to_assignment());
        i = i + 1;
    }
    ratios
}

/// What converting a staked distribution into ratios of its total and normalizing
/// them gives, as parts per billion.
pub open spec fn normalized_ratio_of<AccountId>(
    distribution: Seq<(AccountId, ExtendedBalance)>,
) -> Result<Seq<(AccountId, u32)>, Seq<char>> {
    normalized_parts(ratio_distribution(distribution, total_of(distribution)))
}

/// Converts a vector of staked assignments into ones with ratio values and normalizes
/// each of them. The first assignment that cannot be normalized ends the conversion
/// with its reason.
pub fn assignment_staked_to_ratio_normalized<AccountId: Copy>(
    staked: Vec<StakedAssignment<AccountId>>,
) -> (r: Result<Vec<Assignment<AccountId>>, Error>)
    ensures
        match r {
            Ok(ratios) => ratios@.len() == staked@.len() && forall|i: int|
                0 <= i < staked@.len() ==> (#[trigger] ratios@[i]).who == staked@[i].who
                    && normalized_ratio_of(staked@[i].distribution@) == Ok::<
                    Seq<(AccountId, u32)>,
                    Seq<char>,
                >(parts_of(ratios@[i].distribution@)),
            Err(Error::ArithmeticError(message)) => exists|i: int|
                0 <= i < staked@.len() && normalized_ratio_of(
                    (#[trigger] staked@[i]).distribution@,
                ) == Err::<Seq<(AccountId, u32)>, Seq<char>>(message@) && forall|j: int|
                    0 <= j < i ==> normalized_ratio_of((#[trigger] staked@[j]).distribution@) is Ok,
        },
{
    let mut ratio: Vec<Assignment<AccountId>> = Vec::new();
    let mut i: usize = 0;
    while i < staked.len()
        invariant
            0 <= i <= staked@.len(),
            ratio@.len() == i,
            forall|k: int|
                0 <= k < i ==> (#[trigger] ratio@[k]).who == staked@[k].who
                    && normalized_ratio_of(staked@[k].distribution@) == Ok::<
                    Seq<(AccountId, u32)>,
                    Seq<char>,
                >(parts_of(ratio@[k].distribution@)),
        decreases staked@.len() - i,
    {
        let mut assignment = staked[i].to_assignment();
        match assignment.try_normalize() {
            Ok(_) => {},
            Err(reason) => {
                assert(normalized_ratio_of(staked@[i as int].distribution@) == Err::<
                    Seq<(AccountId, u32)>,
                    Seq<char>,
                >(reason@));
                assert forall|j: int| 0 <= j < i implies normalized_ratio_of(
                    (#[trigger] staked@[j]).distribution@,
                ) is Ok by {
                    assert(ratio@[j].who == staked@[j].who);
                }
                return Err(Error::ArithmeticError(reason));
            },
        }
        ratio.push(assignment);
        i = i + 1;
    }
    Ok(ratio)
}

/// Whether `outcome` is what `ratio` gives when it is converted with a stake that
/// `stake_of` returns for its voter and then normalized around a stake that `stake_of`
/// returns for the same voter.
pub open spec fn normalized_staked_from<AccountId, FS: Fn(&AccountId) -> VoteWeight>(
    ratio: Assignment<AccountId>,
    stake_of: FS,
    outcome: Result<Seq<(AccountId, ExtendedBalance)>, Seq<char>>,
) -> bool {
    exists|first: VoteWeight, second: VoteWeight|
        #![trigger
            call_ensures(stake_of, (&ratio.who,), first),
            call_ensures(stake_of, (&ratio.who,), second)]
        call_ensures(stake_of, (&ratio.who,), first) && call_ensures(
            stake_of,
            (&ratio.who,),
            second,
        ) && outcome == normalized_staked(
            staked_distribution(ratio.distribution@, first as u128),
            second as u128,
        )
}

/// Converts a vector of ratio assignments into ones with absolute budget value and
/// normalizes each of them around the stake of its voter. The first assignment that
/// cannot be normalized ends the conversion with its reason.
pub fn assignment_ratio_to_staked_normalized<AccountId: Copy, FS: Fn(&AccountId) -> VoteWeight>(
    ratio: Vec<Assignment<AccountId>>,
    stake_of: FS,
) -> (r: Result<Vec<StakedAssignment<AccountId>>, Error>)
    requires
        forall|i: int| 0 <= i < ratio@.len() ==> call_requires(stake_of, (&ratio@[i].who,)),
    ensures
        match r {
            Ok(staked) => staked@.len() == ratio@.len() && forall|i: int|
                0 <= i < ratio@.len() ==> (#[trigger] staked@[i]).who == ratio@[i].who
                    && normalized_staked_from(
                    ratio@[i],
                    stake_of,
                    Ok(staked@[i].distribution@),
                ),
            Err(Error::ArithmeticError(message)) => exists|i: int|
                0 <= i < ratio@.len() && normalized_staked_from(
                    #[trigger] ratio@[i],
                    stake_of,
                    Err(message@),
                ),
        },
{
    let staked = ratios_to_staked(&ratio, &stake_of);
    let mut normalized: Vec<StakedAssignment<AccountId>> = Vec::new();
    let mut i: usize = 0;
    while i < staked.len()
        invariant
            0 <= i <= staked@.len(),
            staked@.len() == ratio@.len(),
            normalized@.len() == i,
            forall|k: int| 0 <= k < ratio@.len() ==> call_requires(stake_of, (&ratio@[k].who,)),
            forall|k: int|
                0 <= k < ratio@.len() ==> staked_from(ratio@[k], stake_of, #[trigger] staked@[k]),
            forall|k: int|
                0 <= k < i ==> (#[trigger] normalized@[k]).who == ratio@[k].who
                    && normalized_staked_from(
                    ratio@[k],
                    stake_of,
                    Ok(normalized@[k].distribution@),
                ),
        decreases staked@.len() - i,
    {
        assert(staked_from(ratio@[i as int], stake_of, staked@[i as int]));
        let mut assignment = StakedAssignment {
            who: staked[i].who,
            distribution: copy_of(&staked[i].distribution),
        };
        let stake = stake_of(&assignment.who);
        match assignment.try_normalize(stake as u128) {
            Ok(_) => {},
            Err(reason) => {
                assert(normalized_staked_from(ratio@[i as int], stake_of, Err(reason@)));
                return Err(Error::ArithmeticError(reason));
            },
        }
        assert(normalized_staked_from(ratio@[i as int], stake_of, Ok(assignment.distribution@)));
        normalized.push(assignment);
        i = i + 1;
    }
    Ok(normalized)
}

} // verus!
