//! The hooks that a runtime calls on its pallets around the execution of a block, and
//! their composition: a tuple of hooks is itself a hook that runs its members in
//! declaration order.

use crate::upgrade::TryRuntimeError;
use crate::weights::{Weight, WeightMeter};
use vstd::prelude::*;

verus! {

/// Provides a callback to execute logic before all inherents.
pub trait PreInherents {
    /// Called before all inherents were applied but after `on_initialize`.
    fn pre_inherents() {
    }
}

impl PreInherents for () {
    fn pre_inherents() {
    }
}

impl<A: PreInherents> PreInherents for (A,) {
    fn pre_inherents() {
        A::pre_inherents();
    }
}

impl<A: PreInherents, B: PreInherents> PreInherents for (A, B) {
    fn pre_inherents() {
        A::pre_inherents();
        B::pre_inherents();
    }
}

impl<A: PreInherents, B: PreInherents, C: PreInherents> PreInherents for (A, B, C) {
    fn pre_inherents() {
        A::pre_inherents();
        B::pre_inherents();
        C::pre_inherents();
    }
}

/// Provides a callback to execute logic after all inherents.
pub trait PostInherents {
    /// Called after all inherents were applied.
    fn post_inherents() {
    }
}

impl PostInherents for () {
    fn post_inherents() {
    }
}

impl<A: PostInherents> PostInherents for (A,) {
    fn post_inherents() {
        A::post_inherents();
    }
}

impl<A: PostInherents, B: PostInherents> PostInherents for (A, B) {
    fn post_inherents() {
        A::post_inherents();
        B::post_inherents();
    }
}

impl<A: PostInherents, B: PostInherents, C: PostInherents> PostInherents for (A, B, C) {
    fn post_inherents() {
        A::post_inherents();
        B::post_inherents();
        C::post_inherents();
    }
}

/// Provides a callback to execute logic after all transactions.
pub trait PostTransactions {
    /// Called after all transactions were applied but before `on_finalize`.
    fn post_transactions() {
    }
}

impl PostTransactions for () {
    fn post_transactions() {
    }
}

impl<A: PostTransactions> PostTransactions for (A,) {
    fn post_transactions() {
        A::post_transactions();
    }
}

impl<A: PostTransactions, B: PostTransactions> PostTransactions for (A, B) {
    fn post_transactions() {
        A::post_transactions();
        B::post_transactions();
    }
}

impl<A: PostTransactions, B: PostTransactions, C: PostTransactions> PostTransactions for (
    A,
    B,
    C,
) {
    fn post_transactions() {
        A::post_transactions();
        B::post_transactions();
        C::post_transactions();
    }
}

/// Periodically executes logic. Is not guaranteed to run within a specific timeframe
/// and should only be used on logic that has no deadline.
pub trait OnPoll<BlockNumber> {
    /// Code to execute every now and then at the beginning of the block after inherent
    /// application. The remaining weight limit must be respected.
    fn on_poll(_n: BlockNumber, _weight: &mut WeightMeter) {
    }
}

impl<BlockNumber: Copy> OnPoll<BlockNumber> for () {
    fn on_poll(_n: BlockNumber, _weight: &mut WeightMeter) {
    }
}

impl<BlockNumber: Copy, A: OnPoll<BlockNumber>> OnPoll<BlockNumber> for (A,) {
    /// Lets its member work on the meter: the meter is left as a call of the member's
    /// hook leaves the meter that was handed in.
    fn on_poll(n: BlockNumber, weight: &mut WeightMeter)
        ensures
            exists|first: &mut WeightMeter|
                mut_ref_current(first) == *old(weight) && call_ensures(
                    A::on_poll,
                    (n, first),
                    (),
                ) && *final(weight) == mut_ref_future(first),
    {
        A::on_poll(n, weight);
    }
}

impl<BlockNumber: Copy, A: OnPoll<BlockNumber>, B: OnPoll<BlockNumber>> OnPoll<
    BlockNumber,
> for (A, B) {
    /// Lets both members work on the meter in order: the first finds the meter that
    /// was handed in, the second finds it as the first has left it, and it is left as
    /// the second leaves it.
    fn on_poll(n: BlockNumber, weight: &mut WeightMeter)
        ensures
            exists|first: &mut WeightMeter, second: &mut WeightMeter|
                mut_ref_current(first) == *old(weight) && call_ensures(
                    A::on_poll,
                    (n, first),
                    (),
                ) && mut_ref_current(second) == mut_ref_future(first) && call_ensures(
                    B::on_poll,
                    (n, second),
                    (),
                ) && *final(weight) == mut_ref_future(second),
    {
        A::on_poll(n, weight);
        B::on_poll(n, weight);
    }
}

impl<
    BlockNumber: Copy,
    A: OnPoll<BlockNumber>,
    B: OnPoll<BlockNumber>,
    C: OnPoll<BlockNumber>,
> OnPoll<BlockNumber> for (A, B, C) {
    /// Lets the members work on the meter in order: the first finds the meter that was
    /// handed in, each of the others finds it as the member before has left it, and
    /// it is left as the last leaves it.
    fn on_poll(n: BlockNumber, weight: &mut WeightMeter)
        ensures
            exists|first: &mut WeightMeter, second: &mut WeightMeter, third: &mut WeightMeter|
                mut_ref_current(first) == *old(weight) && call_ensures(
                    A::on_poll,
                    (n, first),
                    (),
                ) && mut_ref_current(second) == mut_ref_future(first) && call_ensures(
                    B::on_poll,
                    (n, second),
                    (),
                ) && mut_ref_current(third) == mut_ref_future(second) && call_ensures(
                    C::on_poll,
                    (n, third),
                    (),
                ) && *final(weight) == mut_ref_future(third),
    {
        A::on_poll(n, weight);
        B::on_poll(n, weight);
        C::on_poll(n, weight);
    }
}

/// Block initialization hook. This is called at the very beginning of block execution.
pub trait OnInitialize<BlockNumber> {
    /// Whether the implementation keeps the `on_initialize` of the trait, which
    /// does nothing and reports no weight. An implementation with a hook of its
    /// own says `false`.
    open spec fn on_initialize_is_default() -> bool {
        true
    }

    /// Returns the weight that both this hook and the finalization of the block are
    /// going to consume without negotiation.
    fn on_initialize(_n: BlockNumber) -> (weight: Weight)
        ensures
            Self::on_initialize_is_default() ==> weight == Weight::spec_zero(),
    {
        Weight::zero()
    }
}

impl<BlockNumber: Copy> OnInitialize<BlockNumber> for () {
    fn on_initialize(_n: BlockNumber) -> (weight: Weight)
        ensures
            weight == Weight::spec_zero(),
    {
        Weight::zero()
    }
}

impl<BlockNumber: Copy, A: OnInitialize<BlockNumber>> OnInitialize<BlockNumber> for (A,) {
    open spec fn on_initialize_is_default() -> bool {
        false
    }

    /// Reports what its member reports.
    fn on_initialize(n: BlockNumber) -> (weight: Weight)
        ensures
            exists|wa: Weight|
                call_ensures(A::on_initialize, (n,), wa) && weight
                    == Weight::spec_zero().spec_saturating_add(wa),
    {
        let mut weight = Weight::zero();
        weight = weight.saturating_add(A::on_initialize(n));
        weight
    }
}

impl<
    BlockNumber: Copy,
    A: OnInitialize<BlockNumber>,
    B: OnInitialize<BlockNumber>,
> OnInitialize<BlockNumber> for (A, B) {
    open spec fn on_initialize_is_default() -> bool {
        false
    }

    /// Runs both members in order and reports the saturating sum of their weights.
    fn on_initialize(n: BlockNumber) -> (weight: Weight)
        ensures
            exists|wa: Weight, wb: Weight|
                call_ensures(A::on_initialize, (n,), wa) && call_ensures(
                    B::on_initialize,
                    (n,),
                    wb,
                ) && weight == Weight::spec_zero().spec_saturating_add(wa).spec_saturating_add(wb),
    {
        let mut weight = Weight::zero();
        weight = weight.saturating_add(A::on_initialize(n));
        weight = weight.saturating_add(B::on_initialize(n));
        weight
    }
}

impl<
    BlockNumber: Copy,
    A: OnInitialize<BlockNumber>,
    B: OnInitialize<BlockNumber>,
    C: OnInitialize<BlockNumber>,
> OnInitialize<BlockNumber> for (A, B, C) {
    open spec fn on_initialize_is_default() -> bool {
        false
    }

    /// Runs the members in order and reports the saturating sum of their weights.
    fn on_initialize(n: BlockNumber) -> (weight: Weight)
        ensures
            exists|wa: Weight, wb: Weight, wc: Weight|
                call_ensures(A::on_initialize, (n,), wa) && call_ensures(
                    B::on_initialize,
                    (n,),
                    wb,
                ) && call_ensures(C::on_initialize, (n,), wc) && weight
                    == Weight::spec_zero().spec_saturating_add(wa).spec_saturating_add(
                    wb,
                ).spec_saturating_add(wc),
    {
        let mut weight = Weight::zero();
        weight = weight.saturating_add(A::on_initialize(n));
        weight = weight.saturating_add(B::on_initialize(n));
        weight = weight.saturating_add(C::on_initialize(n));
        weight
    }
}

/// Block finalization hook. This is called at the very end of block execution.
pub trait OnFinalize<BlockNumber> {
    /// The weight of this hook must already have been returned by `on_initialize`.
    fn on_finalize(_n: BlockNumber) {
    }
}

impl<BlockNumber: Copy> OnFinalize<BlockNumber> for () {
    fn on_finalize(_n: BlockNumber) {
    }
}

impl<BlockNumber: Copy, A: OnFinalize<BlockNumber>> OnFinalize<BlockNumber> for (A,) {
    fn on_finalize(n: BlockNumber) {
        A::on_finalize(n);
    }
}

impl<BlockNumber: Copy, A: OnFinalize<BlockNumber>, B: OnFinalize<BlockNumber>> OnFinalize<
    BlockNumber,
> for (A, B) {
    fn on_finalize(n: BlockNumber) {
        A::on_finalize(n);
        B::on_finalize(n);
    }
}

impl<
    BlockNumber: Copy,
    A: OnFinalize<BlockNumber>,
    B: OnFinalize<BlockNumber>,
    C: OnFinalize<BlockNumber>,
> OnFinalize<BlockNumber> for (A, B, C) {
    fn on_finalize(n: BlockNumber) {
        A::on_finalize(n);
        B::on_finalize(n);
        C::on_finalize(n);
    }
}

/// A block number that selects where a round over a list of hooks starts.
pub trait RoundRobinIndex: Copy {
    /// The block number as a natural number.
    spec fn index(self) -> nat;

    /// The remainder of the block number by `len`.
    fn rem_of(self, len: u32) -> (r: usize)
        requires
            len > 0,
        ensures
            r == self.index() % (len as nat),
    ;
}

impl RoundRobinIndex for u32 {
    open spec fn index(self) -> nat {
        self as nat
    }

    fn rem_of(self, len: u32) -> (r: usize) {
        (self % len) as usize
    }
}

impl RoundRobinIndex for u64 {
    open spec fn index(self) -> nat {
        self as nat
    }

    fn rem_of(self, len: u32) -> (r: usize) {
        (self % (len as u64)) as usize
    }
}

impl RoundRobinIndex for u128 {
    open spec fn index(self) -> nat {
        self as nat
    }

    fn rem_of(self, len: u32) -> (r: usize) {
        (self % (len as u128)) as usize
    }
}

/// Hook to consume a block's idle time. This runs when the block is being finalized,
/// before `on_finalize`.
pub trait OnIdle<BlockNumber> {
    /// Whether the implementation keeps the `on_idle` of the trait, which
    /// does nothing and uses no weight. An implementation with a hook of its
    /// own says `false`.
    open spec fn on_idle_is_default() -> bool {
        true
    }

    /// Returns the weight used. An implementation should never consume, and therefore
    /// return, more than `_remaining_weight`.
    fn on_idle(_n: BlockNumber, _remaining_weight: Weight) -> (weight: Weight)
        ensures
            Self::on_idle_is_default() ==> weight == Weight::spec_zero(),
    {
        Weight::zero()
    }
}

/// The position in a list of `len` hooks at which the `step`-th call of the round for
/// block `n` is made: the round starts at the remainder of the block number by the
/// length of the list and wraps around.
pub open spec fn round_position(n: nat, len: nat, step: nat) -> int {
    (((n % len) + step) as int) % (len as int)
}

/// Whether `used` is a weight that the member at `position` of the pair `(A, B)` can
/// report when it is given `remaining`.
pub open spec fn pair_on_idle<BlockNumber, A: OnIdle<BlockNumber>, B: OnIdle<BlockNumber>>(
    position: int,
    n: BlockNumber,
    remaining: Weight,
    used: Weight,
) -> bool {
    if position == 0 {
        call_ensures(A::on_idle, (n, remaining), used)
    } else {
        call_ensures(B::on_idle, (n, remaining), used)
    }
}

/// Whether `used` is a weight that the member at `position` of the triple `(A, B, C)`
/// can report when it is given `remaining`.
pub open spec fn triple_on_idle<
    BlockNumber,
    A: OnIdle<BlockNumber>,
    B: OnIdle<BlockNumber>,
    C: OnIdle<BlockNumber>,
>(position: int, n: BlockNumber, remaining: Weight, used: Weight) -> bool {
    if position == 0 {
        call_ensures(A::on_idle, (n, remaining), used)
    } else if position == 1 {
        call_ensures(B::on_idle, (n, remaining), used)
    } else {
        call_ensures(C::on_idle, (n, remaining), used)
    }
}

/// Calls the member at `position` of the pair `(A, B)`.
fn call_pair_on_idle<BlockNumber, A: OnIdle<BlockNumber>, B: OnIdle<BlockNumber>>(
    position: usize,
    n: BlockNumber,
    remaining: Weight,
) -> (used: Weight)
    requires
        position < 2,
    ensures
        pair_on_idle::<BlockNumber, A, B>(position as int, n, remaining, used),
{
    if position == 0 {
        A::on_idle(n, remaining)
    } else {
        B::on_idle(n, remaining)
    }
}

/// Calls the member at `position` of the triple `(A, B, C)`.
fn call_triple_on_idle<
    BlockNumber,
    A: OnIdle<BlockNumber>,
    B: OnIdle<BlockNumber>,
    C: OnIdle<BlockNumber>,
>(position: usize, n: BlockNumber, remaining: Weight) -> (used: Weight)
    requires
        position < 3,
    ensures
        triple_on_idle::<BlockNumber, A, B, C>(position as int, n, remaining, used),
{
    if position == 0 {
        A::on_idle(n, remaining)
    } else if position == 1 {
        B::on_idle(n, remaining)
    } else {
        C::on_idle(n, remaining)
    }
}

impl<BlockNumber: RoundRobinIndex, A: OnIdle<BlockNumber>> OnIdle<BlockNumber> for (A,) {
    open spec fn on_idle_is_default() -> bool {
        false
    }

    /// Gives its member all of the remaining weight and reports what it used.
    fn on_idle(n: BlockNumber, remaining_weight: Weight) -> (weight: Weight)
        ensures
            exists|wa: Weight|
                call_ensures(
                    A::on_idle,
                    (n, remaining_weight.spec_saturating_sub(Weight::spec_zero())),
                    wa,
                ) && weight == Weight::spec_zero().spec_saturating_add(wa),
    {
        let mut weight = Weight::zero();
        let adjusted_remaining_weight = remaining_weight.saturating_sub(weight);
        weight = weight.saturating_add(A::on_idle(n, adjusted_remaining_weight));
        weight
    }
}

impl<
    BlockNumber: RoundRobinIndex,
    A: OnIdle<BlockNumber>,
    B: OnIdle<BlockNumber>,
> OnIdle<BlockNumber> for (A, B) {
    open spec fn on_idle_is_default() -> bool {
        false
    }

    /// Runs both members once, starting with the one that the block number selects.
    /// Each member is given what the members before it have left of the remaining
    /// weight. Reports the saturating sum of the weights used.
    fn on_idle(n: BlockNumber, remaining_weight: Weight) -> (weight: Weight)
        ensures
            exists|w0: Weight, w1: Weight|
                {
                    &&& pair_on_idle::<BlockNumber, A, B>(
                        round_position(n.index(), 2, 0),
                        n,
                        remaining_weight.spec_saturating_sub(Weight::spec_zero()),
                        w0,
                    )
                    &&& pair_on_idle::<BlockNumber, A, B>(
                        round_position(n.index(), 2, 1),
                        n,
                        remaining_weight.spec_saturating_sub(
                            Weight::spec_zero().spec_saturating_add(w0),
                        ),
                        w1,
                    )
                    &&& weight == Weight::spec_zero().spec_saturating_add(w0).spec_saturating_add(
                        w1,
                    )
                },
    {
        let start_index: usize = n.rem_of(2);
        let mut weight = Weight::zero();
        let adjusted_remaining_weight = remaining_weight.saturating_sub(weight);
        let w0 = call_pair_on_idle::<BlockNumber, A, B>(
            start_index % 2,
            n,
            adjusted_remaining_weight,
        );
        weight = weight.saturating_add(w0);
        let adjusted_remaining_weight = remaining_weight.saturating_sub(weight);
        let w1 = call_pair_on_idle::<BlockNumber, A, B>(
            (start_index + 1) % 2,
            n,
            adjusted_remaining_weight,
        );
        weight = weight.saturating_add(w1);
        weight
    }
}

impl<
    BlockNumber: RoundRobinIndex,
    A: OnIdle<BlockNumber>,
    B: OnIdle<BlockNumber>,
    C: OnIdle<BlockNumber>,
> OnIdle<BlockNumber> for (A, B, C) {
    open spec fn on_idle_is_default() -> bool {
        false
    }

    /// Runs every member once, starting with the one that the block number selects and
    /// wrapping around. Each member is given what the members before it have left of
    /// the remaining weight. Reports the saturating sum of the weights used.
    fn on_idle(n: BlockNumber, remaining_weight: Weight) -> (weight: Weight)
        ensures
            exists|w0: Weight, w1: Weight, w2: Weight|
                {
                    &&& triple_on_idle::<BlockNumber, A, B, C>(
                        round_position(n.index(), 3, 0),
                        n,
                        remaining_weight.spec_saturating_sub(Weight::spec_zero()),
                        w0,
                    )
                    &&& triple_on_idle::<BlockNumber, A, B, C>(
                        round_position(n.index(), 3, 1),
                        n,
                        remaining_weight.spec_saturating_sub(
                            Weight::spec_zero().spec_saturating_add(w0),
                        ),
                        w1,
                    )
                    &&& triple_on_idle::<BlockNumber, A, B, C>(
                        round_position(n.index(), 3, 2),
                        n,
                        remaining_weight.spec_saturating_sub(
                            Weight::spec_zero().spec_saturating_add(w0).spec_saturating_add(w1),
                        ),
                        w2,
                    )
                    &&& weight == Weight::spec_zero().spec_saturating_add(w0).spec_saturating_add(
                        w1,
                    ).spec_saturating_add(w2)
                },
    {
        let start_index: usize = n.rem_of(3);
        let mut weight = Weight::zero();
        let adjusted_remaining_weight = remaining_weight.saturating_sub(weight);
        let w0 = call_triple_on_idle::<BlockNumber, A, B, C>(
            start_index % 3,
            n,
            adjusted_remaining_weight,
        );
        weight = weight.saturating_add(w0);
        let adjusted_remaining_weight = remaining_weight.saturating_sub(weight);
        let w1 = call_triple_on_idle::<BlockNumber, A, B, C>(
            (start_index + 1) % 3,
            n,
            adjusted_remaining_weight,
        );
        weight = weight.saturating_add(w1);
        let adjusted_remaining_weight = remaining_weight.saturating_sub(weight);
        let w2 = call_triple_on_idle::<BlockNumber, A, B, C>(
            (start_index + 2) % 3,
            n,
            adjusted_remaining_weight,
        );
        weight = weight.saturating_add(w2);
        weight
    }
}

/// The saturating sum of the weights `used`, taken in order.
pub open spec fn total_used(used: Seq<Weight>) -> Weight
    decreases used.len(),
{
    if used.len() == 0 {
        Weight::spec_zero()
    } else {
        total_used(used.drop_last()).spec_saturating_add(used.last())
    }
}

/// Whether `used` are weights that the hooks `on_idle_functions` can report in the
/// round for block `n`: the hook of the `k`-th step is the one at the `k`-th position
/// of the round, and it is given what the steps before it have left of `remaining`.
pub open spec fn round_robin_ensures<
    BlockNumber: RoundRobinIndex,
    F: Fn(BlockNumber, Weight) -> Weight,
>(
    on_idle_functions: Seq<F>,
    n: BlockNumber,
    remaining: Weight,
    used: Seq<Weight>,
) -> bool {
    &&& used.len() == on_idle_functions.len()
    &&& forall|k: int|
        0 <= k < on_idle_functions.len() ==> call_ensures(
            on_idle_functions[round_position(n.index(), on_idle_functions.len(), k as nat)],
            (n, remaining.spec_saturating_sub(total_used(used.take(k)))),
            #[trigger] used[k],
        )
}

/// Runs every hook of `on_idle_functions` once, starting with the one that the block
/// number selects and wrapping around. Each hook is given what the hooks before it
/// have left of `remaining_weight`. Returns the saturating sum of the weights used.
pub fn on_idle_round_robin<BlockNumber: RoundRobinIndex, F: Fn(BlockNumber, Weight) -> Weight>(
    on_idle_functions: &Vec<F>,
    n: BlockNumber,
    remaining_weight: Weight,
) -> (weight: Weight)
    requires
        0 < on_idle_functions@.len() <= u32::MAX,
        forall|i: int, w: Weight|
            0 <= i < on_idle_functions@.len() ==> #[trigger] call_requires(
                on_idle_functions@[i],
                (n, w),
            ),
    ensures
        exists|used: Seq<Weight>|
            round_robin_ensures(on_idle_functions@, n, remaining_weight, used) && weight
                == total_used(used),
{
    let len = on_idle_functions.len();
    let start_index: usize = n.rem_of(len as u32);
    let mut weight = Weight::zero();
    let ghost mut used: Seq<Weight> = Seq::empty();
    let mut k: usize = 0;
    while k < len
        invariant
            0 <= k <= len,
            len == on_idle_functions@.len(),
            0 < len <= u32::MAX,
            start_index == n.index() % (len as nat),
            used.len() == k,
            weight == total_used(used),
            forall|i: int, w: Weight|
                0 <= i < on_idle_functions@.len() ==> #[trigger] call_requires(
                    on_idle_functions@[i],
                    (n, w),
                ),
            forall|j: int|
                0 <= j < k ==> call_ensures(
                    on_idle_functions@[round_position(n.index(), len as nat, j as nat)],
                    (n, remaining_weight.spec_saturating_sub(total_used(used.take(j)))),
                    #[trigger] used[j],
                ),
        decreases len - k,
    {
        let position: usize = ((start_index as u64 + k as u64) % (len as u64)) as usize;
        let adjusted_remaining_weight = remaining_weight.saturating_sub(weight);
        let w = (on_idle_functions[position])(n, adjusted_remaining_weight);
        weight = weight.saturating_add(w);
        proof {
            let before = used;
            used = used.push(w);
            assert(used.drop_last() =~= before);
            assert(used.take(k as int) =~= before);
            assert forall|j: int| 0 <= j < k implies used.take(j) == before.take(j) by {
                assert(used.take(j) =~= before.take(j));
            }
            assert(before.take(k as int) =~= before);
        }
        k = k + 1;
    }
    weight
}

/// In a round over `len` hooks every position is visited exactly once: the positions
/// of different steps differ, and the round for block `n + len` is that for block `n`.
pub proof fn round_visits_every_position_once(n: nat, len: nat, step: nat, other: nat)
    requires
        len > 0,
        step < len,
        other < len,
    ensures
        0 <= round_position(n, len, step) < len,
        round_position(n, len, 0) == n % len,
        step != other ==> round_position(n, len, step) != round_position(n, len, other),
        round_position(n + len, len, step) == round_position(n, len, step),
{
    let start = (n % len) as int;
    let l = len as int;
    assert(0 <= start < l);
    assert(((n + len) % len) == n % len) by (nonlinear_arith)
        requires
            len > 0,
    ;
    assert((start + step) % l == if start + step < l {
        start + step
    } else {
        start + step - l
    }) by (nonlinear_arith)
        requires
            0 <= start < l,
            0 <= step < l,
    ;
    assert((start + other) % l == if start + other < l {
        start + other
    } else {
        start + other - l
    }) by (nonlinear_arith)
        requires
            0 <= start < l,
            0 <= other < l,
    ;
    assert(start % l == start) by (nonlinear_arith)
        requires
            0 <= start < l,
    ;
}

/// A trait that will be called at genesis.
pub trait OnGenesis {
    /// Something that should happen at genesis.
    fn on_genesis() {
    }
}

impl OnGenesis for () {
    fn on_genesis() {
    }
}

impl<A: OnGenesis> OnGenesis for (A,) {
    fn on_genesis() {
        A::on_genesis();
    }
}

impl<A: OnGenesis, B: OnGenesis> OnGenesis for (A, B) {
    fn on_genesis() {
        A::on_genesis();
        B::on_genesis();
    }
}

impl<A: OnGenesis, B: OnGenesis, C: OnGenesis> OnGenesis for (A, B, C) {
    fn on_genesis() {
        A::on_genesis();
        B::on_genesis();
        C::on_genesis();
    }
}

/// Allows defining logic to run prior to any runtime upgrade logic.
pub trait BeforeAllRuntimeMigrations {
    /// Whether the implementation keeps the `before_all_runtime_migrations` of the trait, which
    /// does nothing and reports no weight. An implementation with a hook of its
    /// own says `false`.
    open spec fn before_all_runtime_migrations_is_default() -> bool {
        true
    }

    /// Something that should happen before runtime migrations are executed.
    fn before_all_runtime_migrations() -> (weight: Weight)
        ensures
            Self::before_all_runtime_migrations_is_default() ==> weight == Weight::spec_zero(),
    {
        Weight::zero()
    }
}

impl BeforeAllRuntimeMigrations for () {
    fn before_all_runtime_migrations() -> (weight: Weight)
        ensures
            weight == Weight::spec_zero(),
    {
        Weight::zero()
    }
}

impl<A: BeforeAllRuntimeMigrations> BeforeAllRuntimeMigrations for (A,) {
    open spec fn before_all_runtime_migrations_is_default() -> bool {
        false
    }

    /// Reports what its member reports.
    fn before_all_runtime_migrations() -> (weight: Weight)
        ensures
            exists|wa: Weight|
                call_ensures(A::before_all_runtime_migrations, (), wa) && weight
                    == Weight::spec_zero().spec_saturating_add(wa),
    {
        let mut weight = Weight::zero();
        weight = weight.saturating_add(A::before_all_runtime_migrations());
        weight
    }
}

impl<A: BeforeAllRuntimeMigrations, B: BeforeAllRuntimeMigrations> BeforeAllRuntimeMigrations for (
    A,
    B,
) {
    open spec fn before_all_runtime_migrations_is_default() -> bool {
        false
    }

    /// Runs both members in order and reports the saturating sum of their weights.
    fn before_all_runtime_migrations() -> (weight: Weight)
        ensures
            exists|wa: Weight, wb: Weight|
                call_ensures(A::before_all_runtime_migrations, (), wa) && call_ensures(
                    B::before_all_runtime_migrations,
                    (),
                    wb,
                ) && weight == Weight::spec_zero().spec_saturating_add(wa).spec_saturating_add(wb),
    {
        let mut weight = Weight::zero();
        weight = weight.saturating_add(A::before_all_runtime_migrations());
        weight = weight.saturating_add(B::before_all_runtime_migrations());
        weight
    }
}

impl<
    A: BeforeAllRuntimeMigrations,
    B: BeforeAllRuntimeMigrations,
    C: BeforeAllRuntimeMigrations,
> BeforeAllRuntimeMigrations for (A, B, C) {
    open spec fn before_all_runtime_migrations_is_default() -> bool {
        false
    }

    /// Runs the members in order and reports the saturating sum of their weights.
    fn before_all_runtime_migrations() -> (weight: Weight)
        ensures
            exists|wa: Weight, wb: Weight, wc: Weight|
                call_ensures(A::before_all_runtime_migrations, (), wa) && call_ensures(
                    B::before_all_runtime_migrations,
                    (),
                    wb,
                ) && call_ensures(C::before_all_runtime_migrations, (), wc) && weight
                    == Weight::spec_zero().spec_saturating_add(wa).spec_saturating_add(
                    wb,
                ).spec_saturating_add(wc),
    {
        let mut weight = Weight::zero();
        weight = weight.saturating_add(A::before_all_runtime_migrations());
        weight = weight.saturating_add(B::before_all_runtime_migrations());
        weight = weight.saturating_add(C::before_all_runtime_migrations());
        weight
    }
}

/// Check the integrity of a pallet's configuration.
pub trait IntegrityTest {
    /// Tests the values and types that the pallet was configured with.
    fn integrity_test() {
    }
}

impl IntegrityTest for () {
    fn integrity_test() {
    }
}

impl<A: IntegrityTest> IntegrityTest for (A,) {
    fn integrity_test() {
        A::integrity_test();
    }
}

impl<A: IntegrityTest, B: IntegrityTest> IntegrityTest for (A, B) {
    fn integrity_test() {
        A::integrity_test();
        B::integrity_test();
    }
}

impl<A: IntegrityTest, B: IntegrityTest, C: IntegrityTest> IntegrityTest for (A, B, C) {
    fn integrity_test() {
        A::integrity_test();
        B::integrity_test();
        C::integrity_test();
    }
}

/// A trait to define the build function of a genesis config for both runtime and
/// pallets.
pub trait BuildGenesisConfig {
    /// The build function puts initial `GenesisConfig` keys/values pairs into the
    /// storage.
    fn build(&self);
}

impl BuildGenesisConfig for () {
    fn build(&self) {
    }
}

/// A trait which is called when the timestamp is set in the runtime.
pub trait OnTimestampSet<Moment> {
    /// Called when the timestamp is set.
    fn on_timestamp_set(moment: Moment);
}

impl<Moment: Copy> OnTimestampSet<Moment> for () {
    fn on_timestamp_set(_moment: Moment) {
    }
}

impl<Moment: Copy, A: OnTimestampSet<Moment>> OnTimestampSet<Moment> for (A,) {
    fn on_timestamp_set(moment: Moment) {
        A::on_timestamp_set(moment);
    }
}

impl<Moment: Copy, A: OnTimestampSet<Moment>, B: OnTimestampSet<Moment>> OnTimestampSet<
    Moment,
> for (A, B) {
    fn on_timestamp_set(moment: Moment) {
        A::on_timestamp_set(moment);
        B::on_timestamp_set(moment);
    }
}

impl<
    Moment: Copy,
    A: OnTimestampSet<Moment>,
    B: OnTimestampSet<Moment>,
    C: OnTimestampSet<Moment>,
> OnTimestampSet<Moment> for (A, B, C) {
    fn on_timestamp_set(moment: Moment) {
        A::on_timestamp_set(moment);
        B::on_timestamp_set(moment);
        C::on_timestamp_set(moment);
    }
}

/// The hooks of a pallet. Every hook does nothing unless the pallet says otherwise.
///
/// For all hooks but `on_idle`, the order of execution among the pallets of a runtime
/// is the order in which the runtime lists them.
pub trait Hooks<BlockNumber> {
    /// Whether the implementation keeps the `on_initialize` of the trait, which
    /// does nothing and reports no weight. An implementation with a hook of its
    /// own says `false`.
    open spec fn on_initialize_is_default() -> bool {
        true
    }

    /// Whether the implementation keeps the `on_idle` of the trait, which
    /// does nothing and uses no weight. An implementation with a hook of its
    /// own says `false`.
    open spec fn on_idle_is_default() -> bool {
        true
    }

    /// Whether the implementation keeps the `on_runtime_upgrade` of the trait, which
    /// does nothing and reports no weight. An implementation with a hook of its
    /// own says `false`.
    open spec fn on_runtime_upgrade_is_default() -> bool {
        true
    }

    /// Whether the implementation keeps the `try_state` of the trait, which
    /// checks nothing and succeeds. An implementation with a hook of its
    /// own says `false`.
    open spec fn try_state_is_default() -> bool {
        true
    }

    /// Whether the implementation keeps the `pre_upgrade` of the trait, which
    /// checks nothing and hands on an empty state. An implementation with a hook of its
    /// own says `false`.
    open spec fn pre_upgrade_is_default() -> bool {
        true
    }

    /// Whether the implementation keeps the `post_upgrade` of the trait, which
    /// checks nothing and succeeds. An implementation with a hook of its
    /// own says `false`.
    open spec fn post_upgrade_is_default() -> bool {
        true
    }

    /// Block initialization hook. This is called at the very beginning of block
    /// execution. Returns the weight that it and `on_finalize` consume for certain.
    fn on_initialize(_n: BlockNumber) -> (weight: Weight)
        ensures
            Self::on_initialize_is_default() ==> weight == Weight::spec_zero(),
    {
        Weight::zero()
    }

    /// Block finalization hook. This is called at the very end of block execution.
    fn on_finalize(_n: BlockNumber) {
    }

    /// Hook to consume a block's idle time. Returns the weight used, which should
    /// never be more than `_remaining_weight`.
    fn on_idle(_n: BlockNumber, _remaining_weight: Weight) -> (weight: Weight)
        ensures
            Self::on_idle_is_default() ==> weight == Weight::spec_zero(),
    {
        Weight::zero()
    }

    /// A hook to run logic after inherent application. It is not guaranteed to execute
    /// in a block.
    fn on_poll(_n: BlockNumber, _weight: &mut WeightMeter) {
    }

    /// Hook executed when a code change is detected. It runs before `on_initialize` of
    /// any pallet.
    fn on_runtime_upgrade() -> (weight: Weight)
        ensures
            Self::on_runtime_upgrade_is_default() ==> weight == Weight::spec_zero(),
    {
        Weight::zero()
    }

    /// Executes the sanity checks of this pallet, per block. This hook must not alter
    /// any storage.
    fn try_state(_n: BlockNumber) -> (r: Result<(), TryRuntimeError>)
        ensures
            Self::try_state_is_default() ==> r is Ok,
    {
        Ok(())
    }

    /// Executes some pre-checks prior to a runtime upgrade and returns the state that
    /// `post_upgrade` is to see.
    fn pre_upgrade() -> (r: Result<Vec<u8>, TryRuntimeError>)
        ensures
            Self::pre_upgrade_is_default() ==> (r matches Ok(state) && state@ == Seq::<
                u8,
            >::empty()),
    {
        Ok(Vec::new())
    }

    /// Executes some post-checks after a runtime upgrade.
    fn post_upgrade(_state: Vec<u8>) -> (r: Result<(), TryRuntimeError>)
        ensures
            Self::post_upgrade_is_default() ==> r is Ok,
    {
        Ok(())
    }

    /// Runs tasks that are independent of the execution of the chain. What it changes
    /// in the state is discarded.
    fn offchain_worker(_n: BlockNumber) {
    }

    /// Checks the integrity of this pallet's configuration.
    fn integrity_test() {
    }
}

} // verus!
