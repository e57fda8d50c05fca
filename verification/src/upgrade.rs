//! Hooks that run when the code of a runtime changes, with the checks that a dry run
//! makes around them.

use crate::weights::Weight;
use vstd::prelude::*;

verus! {

/// The error of a check that runs only in a dry run of a runtime upgrade.
#[derive(Clone, Copy, PartialEq, Eq, Debug)]
pub struct TryRuntimeError(pub &'static str);

/// What a tuple of migrations reports when more than one of its members has failed.
pub const MULTIPLE_ERRORS: &'static str =
    "Detected multiple errors while executing `try_on_runtime_upgrade`, check the logs!";

/// What a tuple of migrations reports when its `pre_upgrade` is called.
pub const PRE_UPGRADE_ON_TUPLE: &'static str =
    "Usage of `pre_upgrade` with Tuples is not expected. Please use `try_on_runtime_upgrade` \
     instead, which internally calls `pre_upgrade` -> `on_runtime_upgrade` -> `post_upgrade` \
     for each tuple member.";

/// What a tuple of migrations reports when its `post_upgrade` is called.
pub const POST_UPGRADE_ON_TUPLE: &'static str =
    "Usage of `post_upgrade` with Tuples is not expected. Please use `try_on_runtime_upgrade` \
     instead, which internally calls `pre_upgrade` -> `on_runtime_upgrade` -> `post_upgrade` \
     for each tuple member.";

/// Hook executed when a code change (a runtime upgrade) is detected.
pub trait OnRuntimeUpgrade {
    /// Whether the implementation keeps the `on_runtime_upgrade` of the trait, which
    /// does nothing and reports no weight. An implementation with a hook of its
    /// own says `false`.
    open spec fn on_runtime_upgrade_is_default() -> bool {
        true
    }

    /// Whether the implementation keeps the `pre_upgrade` of the trait, which
    /// checks nothing and hands on an empty state. An implementation with a hook of its
    /// own says `false`.
    open spec fn pre_upgrade_is_default() -> bool {
        true
    }

    /// Whether the implementation keeps the `post_upgrade` of the trait, which
    /// checks nothing and succeeds. An implementation with a hook of its
    /// own says `false`.
    open spec fn post_upgrade_is_default() -> bool {
        true
    }

    /// Whether the implementation keeps the `try_on_runtime_upgrade` of the trait, which
    /// runs the three hooks one after the other. An implementation with a dry run of
    /// its own says `false`.
    open spec fn try_on_runtime_upgrade_is_default() -> bool {
        true
    }

    /// Performs the migration and returns the weight it consumed.
    fn on_runtime_upgrade() -> (weight: Weight)
        ensures
            Self::on_runtime_upgrade_is_default() ==> weight == Weight::spec_zero(),
    {
        Weight::zero()
    }

    /// Runs `pre_upgrade`, `on_runtime_upgrade` and `post_upgrade` in this order and
    /// hands the state that `pre_upgrade` returns to `post_upgrade`. Without `checks`
    /// only `on_runtime_upgrade` runs. A failed check ends the run with its error:
    /// after a failed `pre_upgrade` nothing else runs, and a failed `post_upgrade`
    /// takes the place of the weight. Else the weight of the migration is the result.
    fn try_on_runtime_upgrade(checks: bool) -> (r: Result<Weight, TryRuntimeError>)
        ensures
            Self::try_on_runtime_upgrade_is_default() ==> if checks {
                exists|pre: Result<Vec<u8>, TryRuntimeError>|
                    #![trigger call_ensures(Self::pre_upgrade, (), pre)]
                    call_ensures(Self::pre_upgrade, (), pre) && match pre {
                        Err(e) => r == Err::<Weight, TryRuntimeError>(e),
                        Ok(state) => exists|weight: Weight, post: Result<(), TryRuntimeError>|
                            #![trigger
                                call_ensures(Self::on_runtime_upgrade, (), weight),
                                call_ensures(Self::post_upgrade, (state,), post)]
                            call_ensures(Self::on_runtime_upgrade, (), weight) && call_ensures(
                                Self::post_upgrade,
                                (state,),
                                post,
                            ) && r == match post {
                                Err(e) => Err::<Weight, TryRuntimeError>(e),
                                Ok(_) => Ok(weight),
                            },
                    }
            } else {
                exists|weight: Weight|
                    #![trigger call_ensures(Self::on_runtime_upgrade, (), weight)]
                    call_ensures(Self::on_runtime_upgrade, (), weight) && r == Ok::<
                        Weight,
                        TryRuntimeError,
                    >(weight)
            },
    {
        let maybe_state = if checks {
            match Self::pre_upgrade() {
                Ok(state) => Some(state),
                Err(e) => {
                    return Err(e);
                },
            }
        } else {
            None
        };
        let weight = Self::on_runtime_upgrade();
        if let Some(state) = maybe_state {
            match Self::post_upgrade(state) {
                Ok(_) => {},
                Err(e) => {
                    return Err(e);
                },
            }
        }
        Ok(weight)
    }

    /// Executes some pre-checks prior to a runtime upgrade and returns the state that
    /// `post_upgrade` is to see.
    fn pre_upgrade() -> (r: Result<Vec<u8>, TryRuntimeError>)
        ensures
            Self::pre_upgrade_is_default() ==> (r matches Ok(state) && state@ == Seq::<
                u8,
            >::empty()),
    {
        Ok(Vec::new())
    }

    /// Executes some post-checks after a runtime upgrade.
    fn post_upgrade(_state: Vec<u8>) -> (r: Result<(), TryRuntimeError>)
        ensures
            Self::post_upgrade_is_default() ==> r is Ok,
    {
        Ok(())
    }
}

/// A migration that runs without version checks of its own. Implementations should
/// ensure that the migration logic is safe and idempotent.
pub trait UncheckedOnRuntimeUpgrade {
    /// Whether the implementation keeps the `on_runtime_upgrade` of the trait, which
    /// does nothing and reports no weight. An implementation with a hook of its
    /// own says `false`.
    open spec fn on_runtime_upgrade_is_default() -> bool {
        true
    }

    /// Whether the implementation keeps the `pre_upgrade` of the trait, which
    /// checks nothing and hands on an empty state. An implementation with a hook of its
    /// own says `false`.
    open spec fn pre_upgrade_is_default() -> bool {
        true
    }

    /// Whether the implementation keeps the `post_upgrade` of the trait, which
    /// checks nothing and succeeds. An implementation with a hook of its
    /// own says `false`.
    open spec fn post_upgrade_is_default() -> bool {
        true
    }

    /// Performs the migration and returns the weight it consumed.
    fn on_runtime_upgrade() -> (weight: Weight)
        ensures
            Self::on_runtime_upgrade_is_default() ==> weight == Weight::spec_zero(),
    {
        Weight::zero()
    }

    /// Executes some pre-checks prior to a runtime upgrade.
    fn pre_upgrade() -> (r: Result<Vec<u8>, TryRuntimeError>)
        ensures
            Self::pre_upgrade_is_default() ==> (r matches Ok(state) && state@ == Seq::<
                u8,
            >::empty()),
    {
        Ok(Vec::new())
    }

    /// Executes some post-checks after a runtime upgrade.
    fn post_upgrade(_state: Vec<u8>) -> (r: Result<(), TryRuntimeError>)
        ensures
            Self::post_upgrade_is_default() ==> r is Ok,
    {
        Ok(())
    }
}

/// The errors among `results`, in order.
pub open spec fn upgrade_errors(results: Seq<Result<Weight, TryRuntimeError>>) -> Seq<
    TryRuntimeError,
>
    decreases results.len(),
{
    if results.len() == 0 {
        Seq::empty()
    } else {
        match results.last() {
            Err(e) => upgrade_errors(results.drop_last()).push(e),
            Ok(_) => upgrade_errors(results.drop_last()),
        }
    }
}

/// The saturating sum of the weights among `results`.
pub open spec fn upgrade_weight(results: Seq<Result<Weight, TryRuntimeError>>) -> Weight
    decreases results.len(),
{
    if results.len() == 0 {
        Weight::spec_zero()
    } else {
        match results.last() {
            Ok(weight) => upgrade_weight(results.drop_last()).spec_saturating_add(weight),
            Err(_) => upgrade_weight(results.drop_last()),
        }
    }
}

/// What a tuple of migrations reports for the results of its members: the sum of
/// their weights if none has failed, the error of the one that has, and a summary
/// error if several have.
pub open spec fn merged_upgrade_results(results: Seq<Result<Weight, TryRuntimeError>>) -> Result<
    Weight,
    TryRuntimeError,
> {
    let errors = upgrade_errors(results);
    if errors.len() == 0 {
        Ok(upgrade_weight(results))
    } else if errors.len() == 1 {
        Err(errors[0])
    } else {
        Err(TryRuntimeError(MULTIPLE_ERRORS))
    }
}

/// Merges the results of the members of a tuple of migrations.
pub fn merge_upgrade_results(results: &Vec<Result<Weight, TryRuntimeError>>) -> (r: Result<
    Weight,
    TryRuntimeError,
>)
    ensures
        r == merged_upgrade_results(results@),
{
    let mut cumulative_weight = Weight::zero();
    let mut errors: Vec<TryRuntimeError> = Vec::new();
    let mut i: usize = 0;
    while i < results.len()
        invariant
            0 <= i <= results@.len(),
            errors@ == upgrade_errors(results@.take(i as int)),
            cumulative_weight == upgrade_weight(results@.take(i as int)),
        decreases results@.len() - i,
    {
        assert(results@.take(i + 1).drop_last() =~= results@.take(i as int));
        match results[i] {
            Ok(weight) => {
                cumulative_weight.saturating_accrue(weight);
            },
            Err(err) => {
                errors.push(err);
            },
        }
        i = i + 1;
    }
    assert(results@.take(i as int) =~= results@);
    if errors.len() == 1 {
        Err(errors[0])
    } else if errors.len() != 0 {
        Err(TryRuntimeError(MULTIPLE_ERRORS))
    } else {
        Ok(cumulative_weight)
    }
}

impl OnRuntimeUpgrade for () {
    open spec fn pre_upgrade_is_default() -> bool {
        false
    }

    open spec fn post_upgrade_is_default() -> bool {
        false
    }

    open spec fn try_on_runtime_upgrade_is_default() -> bool {
        false
    }

    fn on_runtime_upgrade() -> (weight: Weight)
        ensures
            weight == Weight::spec_zero(),
    {
        Weight::zero()
    }

    fn try_on_runtime_upgrade(_checks: bool) -> (r: Result<Weight, TryRuntimeError>)
        ensures
            r == Ok::<Weight, TryRuntimeError>(Weight::spec_zero()),
    {
        Ok(Weight::zero())
    }

    /// Checks of a tuple run through `try_on_runtime_upgrade` only.
    fn pre_upgrade() -> (r: Result<Vec<u8>, TryRuntimeError>)
        ensures
            r == Err::<Vec<u8>, TryRuntimeError>(TryRuntimeError(PRE_UPGRADE_ON_TUPLE)),
    {
        Err(TryRuntimeError(PRE_UPGRADE_ON_TUPLE))
    }

    /// Checks of a tuple run through `try_on_runtime_upgrade` only.
    fn post_upgrade(_state: Vec<u8>) -> (r: Result<(), TryRuntimeError>)
        ensures
            r == Err::<(), TryRuntimeError>(TryRuntimeError(POST_UPGRADE_ON_TUPLE)),
    {
        Err(TryRuntimeError(POST_UPGRADE_ON_TUPLE))
    }
}

impl<A: OnRuntimeUpgrade> OnRuntimeUpgrade for (A,) {
    open spec fn on_runtime_upgrade_is_default() -> bool {
        false
    }

    open spec fn pre_upgrade_is_default() -> bool {
        false
    }

    open spec fn post_upgrade_is_default() -> bool {
        false
    }

    open spec fn try_on_runtime_upgrade_is_default() -> bool {
        false
    }

    /// Reports what its member reports.
    fn on_runtime_upgrade() -> (weight: Weight)
        ensures
            exists|wa: Weight|
                call_ensures(A::on_runtime_upgrade, (), wa) && weight
                    == Weight::spec_zero().spec_saturating_add(wa),
    {
        let mut weight = Weight::zero();
        weight = weight.saturating_add(A::on_runtime_upgrade());
        weight
    }

    /// Runs the dry run of its member and reports its result.
    fn try_on_runtime_upgrade(checks: bool) -> (r: Result<Weight, TryRuntimeError>)
        ensures
            exists|ra: Result<Weight, TryRuntimeError>|
                call_ensures(A::try_on_runtime_upgrade, (checks,), ra) && r
                    == merged_upgrade_results(seq![ra]),
    {
        let mut results: Vec<Result<Weight, TryRuntimeError>> = Vec::new();
        let ra = A::try_on_runtime_upgrade(checks);
        results.push(ra);
        assert(results@ =~= seq![ra]);
        merge_upgrade_results(&results)
    }

    /// Checks of a tuple run through `try_on_runtime_upgrade` only.
    fn pre_upgrade() -> (r: Result<Vec<u8>, TryRuntimeError>)
        ensures
            r == Err::<Vec<u8>, TryRuntimeError>(TryRuntimeError(PRE_UPGRADE_ON_TUPLE)),
    {
        Err(TryRuntimeError(PRE_UPGRADE_ON_TUPLE))
    }

    /// Checks of a tuple run through `try_on_runtime_upgrade` only.
    fn post_upgrade(_state: Vec<u8>) -> (r: Result<(), TryRuntimeError>)
        ensures
            r == Err::<(), TryRuntimeError>(TryRuntimeError(POST_UPGRADE_ON_TUPLE)),
    {
        Err(TryRuntimeError(POST_UPGRADE_ON_TUPLE))
    }
}

impl<A: OnRuntimeUpgrade, B: OnRuntimeUpgrade> OnRuntimeUpgrade for (A, B) {
    open spec fn on_runtime_upgrade_is_default() -> bool {
        false
    }

    open spec fn pre_upgrade_is_default() -> bool {
        false
    }

    open spec fn post_upgrade_is_default() -> bool {
        false
    }

    open spec fn try_on_runtime_upgrade_is_default() -> bool {
        false
    }

    /// Runs both members in order and reports the saturating sum of their weights.
    fn on_runtime_upgrade() -> (weight: Weight)
        ensures
            exists|wa: Weight, wb: Weight|
                call_ensures(A::on_runtime_upgrade, (), wa) && call_ensures(
                    B::on_runtime_upgrade,
                    (),
                    wb,
                ) && weight == Weight::spec_zero().spec_saturating_add(wa).spec_saturating_add(wb),
    {
        let mut weight = Weight::zero();
        weight = weight.saturating_add(A::on_runtime_upgrade());
        weight = weight.saturating_add(B::on_runtime_upgrade());
        weight
    }

    /// Runs the dry run of every member, also after one has failed, and merges their
    /// results.
    fn try_on_runtime_upgrade(checks: bool) -> (r: Result<Weight, TryRuntimeError>)
        ensures
            exists|ra: Result<Weight, TryRuntimeError>, rb: Result<Weight, TryRuntimeError>|
                call_ensures(A::try_on_runtime_upgrade, (checks,), ra) && call_ensures(
                    B::try_on_runtime_upgrade,
                    (checks,),
                    rb,
                ) && r == merged_upgrade_results(seq![ra, rb]),
    {
        let mut results: Vec<Result<Weight, TryRuntimeError>> = Vec::new();
        let ra = A::try_on_runtime_upgrade(checks);
        results.push(ra);
        let rb = B::try_on_runtime_upgrade(checks);
        results.push(rb);
        assert(results@ =~= seq![ra, rb]);
        merge_upgrade_results(&results)
    }

    /// Checks of a tuple run through `try_on_runtime_upgrade` only.
    fn pre_upgrade() -> (r: Result<Vec<u8>, TryRuntimeError>)
        ensures
            r == Err::<Vec<u8>, TryRuntimeError>(TryRuntimeError(PRE_UPGRADE_ON_TUPLE)),
    {
        Err(TryRuntimeError(PRE_UPGRADE_ON_TUPLE))
    }

    /// Checks of a tuple run through `try_on_runtime_upgrade` only.
    fn post_upgrade(_state: Vec<u8>) -> (r: Result<(), TryRuntimeError>)
        ensures
            r == Err::<(), TryRuntimeError>(TryRuntimeError(POST_UPGRADE_ON_TUPLE)),
    {
        Err(TryRuntimeError(POST_UPGRADE_ON_TUPLE))
    }
}

impl<A: OnRuntimeUpgrade, B: OnRuntimeUpgrade, C: OnRuntimeUpgrade> OnRuntimeUpgrade for (
    A,
    B,
    C,
) {
    open spec fn on_runtime_upgrade_is_default() -> bool {
        false
    }

    open spec fn pre_upgrade_is_default() -> bool {
        false
    }

    open spec fn post_upgrade_is_default() -> bool {
        false
    }

    open spec fn try_on_runtime_upgrade_is_default() -> bool {
        false
    }

    /// Runs the members in order and reports the saturating sum of their weights.
    fn on_runtime_upgrade() -> (weight: Weight)
        ensures
            exists|wa: Weight, wb: Weight, wc: Weight|
                call_ensures(A::on_runtime_upgrade, (), wa) && call_ensures(
                    B::on_runtime_upgrade,
                    (),
                    wb,
                ) && call_ensures(C::on_runtime_upgrade, (), wc) && weight
                    == Weight::spec_zero().spec_saturating_add(wa).spec_saturating_add(
                    wb,
                ).spec_saturating_add(wc),
    {
        let mut weight = Weight::zero();
        weight = weight.saturating_add(A::on_runtime_upgrade());
        weight = weight.saturating_add(B::on_runtime_upgrade());
        weight = weight.saturating_add(C::on_runtime_upgrade());
        weight
    }

    /// Runs the dry run of every member, also after one has failed, and merges their
    /// results.
    fn try_on_runtime_upgrade(checks: bool) -> (r: Result<Weight, TryRuntimeError>)
        ensures
            exists|
                ra: Result<Weight, TryRuntimeError>,
                rb: Result<Weight, TryRuntimeError>,
                rc: Result<Weight, TryRuntimeError>,
            |
                call_ensures(A::try_on_runtime_upgrade, (checks,), ra) && call_ensures(
                    B::try_on_runtime_upgrade,
                    (checks,),
                    rb,
                ) && call_ensures(C::try_on_runtime_upgrade, (checks,), rc) && r
                    == merged_upgrade_results(seq![ra, rb, rc]),
    {
        let mut results: Vec<Result<Weight, TryRuntimeError>> = Vec::new();
        let ra = A::try_on_runtime_upgrade(checks);
        results.push(ra);
        let rb = B::try_on_runtime_upgrade(checks);
        results.push(rb);
        let rc = C::try_on_runtime_upgrade(checks);
        results.push(rc);
        assert(results@ =~= seq![ra, rb, rc]);
        merge_upgrade_results(&results)
    }

    /// Checks of a tuple run through `try_on_runtime_upgrade` only.
    fn pre_upgrade() -> (r: Result<Vec<u8>, TryRuntimeError>)
        ensures
            r == Err::<Vec<u8>, TryRuntimeError>(TryRuntimeError(PRE_UPGRADE_ON_TUPLE)),
    {
        Err(TryRuntimeError(PRE_UPGRADE_ON_TUPLE))
    }

    /// Checks of a tuple run through `try_on_runtime_upgrade` only.
    fn post_upgrade(_state: Vec<u8>) -> (r: Result<(), TryRuntimeError>)
        ensures
            r == Err::<(), TryRuntimeError>(TryRuntimeError(POST_UPGRADE_ON_TUPLE)),
    {
        Err(TryRuntimeError(POST_UPGRADE_ON_TUPLE))
    }
}

/// A tuple of migrations succeeds exactly if every member does, and then reports the
/// sum of their weights.
pub proof fn merged_results_follow_the_failures(
    results: Seq<Result<Weight, TryRuntimeError>>,
)
    ensures
        upgrade_errors(results).len() <= results.len(),
        (forall|i: int| 0 <= i < results.len() ==> (#[trigger] results[i]) is Ok)
            <==> upgrade_errors(results).len() == 0,
        upgrade_errors(results).len() == 0 <==> merged_upgrade_results(results) is Ok,
        merged_upgrade_results(results) matches Ok(weight) ==> weight == upgrade_weight(results),
    decreases results.len(),
{
    if results.len() > 0 {
        merged_results_follow_the_failures(results.drop_last());
        let rest = results.drop_last();
        if upgrade_errors(results).len() == 0 {
            assert forall|i: int| 0 <= i < results.len() implies (#[trigger] results[i]) is Ok by {
                if i < results.len() - 1 {
                    assert(rest[i] == results[i]);
                }
            }
        }
        if forall|i: int| 0 <= i < results.len() ==> (#[trigger] results[i]) is Ok {
            assert(results.last() is Ok);
            assert forall|i: int| 0 <= i < rest.len() implies (#[trigger] rest[i]) is Ok by {
                assert(rest[i] == results[i]);
            }
        }
    }
}

} // verus!
