use std::sync::Mutex;

use bridge_target::hooks::{
    BeforeAllRuntimeMigrations, Hooks, OnFinalize, OnGenesis, OnIdle, OnInitialize, OnPoll,
    OnTimestampSet, PostInherents, PostTransactions, PreInherents, RoundRobinIndex,
};
use bridge_target::hooks::{on_idle_round_robin, BuildGenesisConfig, IntegrityTest};
use bridge_target::upgrade::{
    merge_upgrade_results, OnRuntimeUpgrade, TryRuntimeError, UncheckedOnRuntimeUpgrade,
    MULTIPLE_ERRORS,
};
use bridge_target::weights::{Weight, WeightMeter};

static PRE: Mutex<Vec<&'static str>> = Mutex::new(Vec::new());
static POST: Mutex<Vec<&'static str>> = Mutex::new(Vec::new());

fn take(log: &Mutex<Vec<&'static str>>) -> Vec<&'static str> {
    std::mem::take(&mut *log.lock().unwrap())
}

struct Foo;
impl OnRuntimeUpgrade for Foo {
    fn on_runtime_upgrade() -> Weight {
        Weight::zero()
    }

    fn pre_upgrade() -> Result<Vec<u8>, TryRuntimeError> {
        PRE.lock().unwrap().push("Foo");
        Ok(Vec::new())
    }

    fn post_upgrade(_: Vec<u8>) -> Result<(), TryRuntimeError> {
        POST.lock().unwrap().push("Foo");
        Ok(())
    }
}

struct Bar;
impl OnRuntimeUpgrade for Bar {
    fn on_runtime_upgrade() -> Weight {
        Weight::zero()
    }

    fn pre_upgrade() -> Result<Vec<u8>, TryRuntimeError> {
        PRE.lock().unwrap().push("Bar");
        Ok(Vec::new())
    }

    fn post_upgrade(_: Vec<u8>) -> Result<(), TryRuntimeError> {
        POST.lock().unwrap().push("Bar");
        Ok(())
    }
}

struct Baz;
impl OnRuntimeUpgrade for Baz {
    fn on_runtime_upgrade() -> Weight {
        Weight::zero()
    }

    fn pre_upgrade() -> Result<Vec<u8>, TryRuntimeError> {
        PRE.lock().unwrap().push("Baz");
        Ok(Vec::new())
    }

    fn post_upgrade(_: Vec<u8>) -> Result<(), TryRuntimeError> {
        POST.lock().unwrap().push("Baz");
        Ok(())
    }
}

#[test]
fn on_runtime_upgrade_pre_post_executed_tuple() {
    // try_on_runtime_upgrade works
    Foo::try_on_runtime_upgrade(true).unwrap();
    assert_eq!(take(&PRE), vec!["Foo"]);
    assert_eq!(take(&POST), vec!["Foo"]);

    <(Foo, Bar, Baz)>::try_on_runtime_upgrade(true).unwrap();
    assert_eq!(take(&PRE), vec!["Foo", "Bar", "Baz"]);
    assert_eq!(take(&POST), vec!["Foo", "Bar", "Baz"]);

    <((Foo, Bar), Baz)>::try_on_runtime_upgrade(true).unwrap();
    assert_eq!(take(&PRE), vec!["Foo", "Bar", "Baz"]);
    assert_eq!(take(&POST), vec!["Foo", "Bar", "Baz"]);

    <(Foo, (Bar, Baz))>::try_on_runtime_upgrade(true).unwrap();
    assert_eq!(take(&PRE), vec!["Foo", "Bar", "Baz"]);
    assert_eq!(take(&POST), vec!["Foo", "Bar", "Baz"]);

    // calling pre_upgrade and post_upgrade directly on tuple of pallets fails
    assert!(<(Foo, (Bar, Baz))>::pre_upgrade().is_err());
    assert!(<(Foo, (Bar, Baz))>::post_upgrade(vec![]).is_err());
}

struct Test;
impl OnInitialize<u8> for Test {
    fn on_initialize(_n: u8) -> Weight {
        Weight::from_parts(10, 0)
    }
}
impl OnRuntimeUpgrade for Test {
    fn on_runtime_upgrade() -> Weight {
        Weight::from_parts(20, 0)
    }
}
impl BeforeAllRuntimeMigrations for Test {
    fn before_all_runtime_migrations() -> Weight {
        Weight::from_parts(1, 2)
    }
}

#[test]
fn on_initialize_and_on_runtime_upgrade_weight_merge_works() {
    assert_eq!(<(Test, Test)>::on_initialize(0), Weight::from_parts(20, 0));
    assert_eq!(<(Test, Test)>::on_runtime_upgrade(), Weight::from_parts(40, 0));
}

#[test]
fn weights_of_tuples_of_every_length_add_up() {
    assert_eq!(<() as OnInitialize<u8>>::on_initialize(0), Weight::zero());
    assert_eq!(<(Test,)>::on_initialize(0), Weight::from_parts(10, 0));
    assert_eq!(<(Test, Test, Test)>::on_initialize(0), Weight::from_parts(30, 0));
    assert_eq!(<((Test, Test), Test, (Test,))>::on_initialize(0), Weight::from_parts(40, 0));
    assert_eq!(<()>::on_runtime_upgrade(), Weight::zero());
    assert_eq!(<(Test,)>::on_runtime_upgrade(), Weight::from_parts(20, 0));
    assert_eq!(<(Test, Test, Test)>::on_runtime_upgrade(), Weight::from_parts(60, 0));
    assert_eq!(<()>::before_all_runtime_migrations(), Weight::zero());
    assert_eq!(<(Test,)>::before_all_runtime_migrations(), Weight::from_parts(1, 2));
    assert_eq!(<(Test, Test)>::before_all_runtime_migrations(), Weight::from_parts(2, 4));
    assert_eq!(<(Test, Test, Test)>::before_all_runtime_migrations(), Weight::from_parts(3, 6));
}

struct Heavy;
impl OnInitialize<u8> for Heavy {
    fn on_initialize(_n: u8) -> Weight {
        Weight::from_parts(u64::MAX - 5, 7)
    }
}

#[test]
fn weights_of_tuples_saturate() {
    assert_eq!(<(Heavy, Test)>::on_initialize(0), Weight::from_parts(u64::MAX, 7));
    assert_eq!(<(Heavy, Heavy, Heavy)>::on_initialize(0), Weight::from_parts(u64::MAX, 21));
}

static ON_IDLE_INVOCATION_ORDER: Mutex<Vec<&'static str>> = Mutex::new(Vec::new());

struct Test1;
struct Test2;
struct Test3;
type TestTuple = (Test1, Test2, Test3);
impl OnIdle<u32> for Test1 {
    fn on_idle(_n: u32, _weight: Weight) -> Weight {
        ON_IDLE_INVOCATION_ORDER.lock().unwrap().push("Test1");
        Weight::zero()
    }
}
impl OnIdle<u32> for Test2 {
    fn on_idle(_n: u32, _weight: Weight) -> Weight {
        ON_IDLE_INVOCATION_ORDER.lock().unwrap().push("Test2");
        Weight::zero()
    }
}
impl OnIdle<u32> for Test3 {
    fn on_idle(_n: u32, _weight: Weight) -> Weight {
        ON_IDLE_INVOCATION_ORDER.lock().unwrap().push("Test3");
        Weight::zero()
    }
}

#[test]
fn on_idle_round_robin_works() {
    TestTuple::on_idle(0, Weight::zero());
    assert_eq!(take(&ON_IDLE_INVOCATION_ORDER), ["Test1", "Test2", "Test3"].to_vec());

    TestTuple::on_idle(1, Weight::zero());
    assert_eq!(take(&ON_IDLE_INVOCATION_ORDER), ["Test2", "Test3", "Test1"].to_vec());

    TestTuple::on_idle(2, Weight::zero());
    assert_eq!(take(&ON_IDLE_INVOCATION_ORDER), ["Test3", "Test1", "Test2"].to_vec());

    TestTuple::on_idle(3, Weight::zero());
    assert_eq!(take(&ON_IDLE_INVOCATION_ORDER), ["Test1", "Test2", "Test3"].to_vec());

    TestTuple::on_idle(4, Weight::zero());
    assert_eq!(take(&ON_IDLE_INVOCATION_ORDER), ["Test2", "Test3", "Test1"].to_vec());
}

static BUDGETS: Mutex<Vec<(&'static str, Weight)>> = Mutex::new(Vec::new());

struct Greedy;
struct Modest;
impl OnIdle<u64> for Greedy {
    fn on_idle(_n: u64, remaining: Weight) -> Weight {
        BUDGETS.lock().unwrap().push(("Greedy", remaining));
        Weight::from_parts(70, 7)
    }
}
impl OnIdle<u64> for Modest {
    fn on_idle(_n: u64, remaining: Weight) -> Weight {
        BUDGETS.lock().unwrap().push(("Modest", remaining));
        Weight::from_parts(20, 2)
    }
}

#[test]
fn on_idle_hands_on_what_is_left_of_the_weight() {
    let budget = Weight::from_parts(100, 8);
    assert_eq!(<(Greedy, Modest)>::on_idle(0, budget), Weight::from_parts(90, 9));
    assert_eq!(
        std::mem::take(&mut *BUDGETS.lock().unwrap()),
        vec![("Greedy", budget), ("Modest", Weight::from_parts(30, 1))]
    );
    assert_eq!(<(Greedy, Modest)>::on_idle(3, budget), Weight::from_parts(90, 9));
    assert_eq!(
        std::mem::take(&mut *BUDGETS.lock().unwrap()),
        vec![("Modest", budget), ("Greedy", Weight::from_parts(80, 6))]
    );
    assert_eq!(<(Greedy, Modest, Greedy)>::on_idle(7, budget), Weight::from_parts(160, 16));
    assert_eq!(
        std::mem::take(&mut *BUDGETS.lock().unwrap()),
        vec![
            ("Modest", budget),
            ("Greedy", Weight::from_parts(80, 6)),
            ("Greedy", Weight::from_parts(10, 0)),
        ]
    );
    assert_eq!(<(Modest,)>::on_idle(7, budget), Weight::from_parts(20, 2));
    assert_eq!(std::mem::take(&mut *BUDGETS.lock().unwrap()), vec![("Modest", budget)]);
}

#[test]
fn block_numbers_of_every_width_select_the_start() {
    assert_eq!(7u32.rem_of(3), 1);
    assert_eq!(u64::MAX.rem_of(2), 1);
    assert_eq!(u128::MAX.rem_of(7), (u128::MAX % 7) as usize);
    assert_eq!(5u64.rem_of(1), 0);
}

struct Failing;
impl OnRuntimeUpgrade for Failing {
    fn on_runtime_upgrade() -> Weight {
        Weight::from_parts(3, 0)
    }

    fn pre_upgrade() -> Result<Vec<u8>, TryRuntimeError> {
        Err(TryRuntimeError("pre-check failed"))
    }
}

struct FailingLate;
impl OnRuntimeUpgrade for FailingLate {
    fn on_runtime_upgrade() -> Weight {
        Weight::from_parts(5, 0)
    }

    fn pre_upgrade() -> Result<Vec<u8>, TryRuntimeError> {
        Ok(vec![1, 2, 3])
    }

    fn post_upgrade(state: Vec<u8>) -> Result<(), TryRuntimeError> {
        assert_eq!(state, vec![1, 2, 3]);
        Err(TryRuntimeError("post-check failed"))
    }
}

#[test]
fn dry_run_reports_the_failed_check() {
    assert_eq!(Failing::try_on_runtime_upgrade(true), Err(TryRuntimeError("pre-check failed")));
    assert_eq!(Failing::try_on_runtime_upgrade(false), Ok(Weight::from_parts(3, 0)));
    assert_eq!(
        FailingLate::try_on_runtime_upgrade(true),
        Err(TryRuntimeError("post-check failed"))
    );
    assert_eq!(FailingLate::try_on_runtime_upgrade(false), Ok(Weight::from_parts(5, 0)));
    assert_eq!(Test::try_on_runtime_upgrade(true), Ok(Weight::from_parts(20, 0)));
}

#[test]
fn dry_run_of_a_tuple_merges_the_results() {
    assert_eq!(<()>::try_on_runtime_upgrade(true), Ok(Weight::zero()));
    assert_eq!(<(Test,)>::try_on_runtime_upgrade(true), Ok(Weight::from_parts(20, 0)));
    assert_eq!(<(Test, Test)>::try_on_runtime_upgrade(true), Ok(Weight::from_parts(40, 0)));
    assert_eq!(
        <(Test, Failing, Test)>::try_on_runtime_upgrade(true),
        Err(TryRuntimeError("pre-check failed"))
    );
    assert_eq!(
        <(Test, Failing, Test)>::try_on_runtime_upgrade(false),
        Ok(Weight::from_parts(43, 0))
    );
    assert_eq!(
        <(Failing, FailingLate)>::try_on_runtime_upgrade(true),
        Err(TryRuntimeError(MULTIPLE_ERRORS))
    );
    assert_eq!(
        MULTIPLE_ERRORS,
        "Detected multiple errors while executing `try_on_runtime_upgrade`, check the logs!"
    );
    assert!(<()>::pre_upgrade().is_err());
    assert!(<(Test,)>::post_upgrade(vec![]).is_err());
    assert!(<(Test, Test)>::pre_upgrade().is_err());
    assert!(<(Test, Test, Test)>::post_upgrade(vec![]).is_err());
}

#[test]
fn merged_results_are_sum_single_error_or_summary() {
    let ok = |t| Ok(Weight::from_parts(t, 1));
    let err = |m| Err(TryRuntimeError(m));
    assert_eq!(merge_upgrade_results(&vec![]), Ok(Weight::zero()));
    assert_eq!(merge_upgrade_results(&vec![ok(1), ok(2), ok(4)]), Ok(Weight::from_parts(7, 3)));
    assert_eq!(merge_upgrade_results(&vec![ok(1), err("a"), ok(4)]), Err(TryRuntimeError("a")));
    assert_eq!(
        merge_upgrade_results(&vec![err("a"), ok(1), err("b")]),
        Err(TryRuntimeError(MULTIPLE_ERRORS))
    );
    assert_eq!(
        merge_upgrade_results(&vec![ok(u64::MAX), ok(1)]),
        Ok(Weight::from_parts(u64::MAX, 2))
    );
}

static ORDER: Mutex<Vec<&'static str>> = Mutex::new(Vec::new());

struct First;
struct Second;
struct Third;

impl PreInherents for First {
    fn pre_inherents() {
        ORDER.lock().unwrap().push("pre 1");
    }
}
impl PreInherents for Second {
    fn pre_inherents() {
        ORDER.lock().unwrap().push("pre 2");
    }
}
impl PreInherents for Third {}
impl PostInherents for First {
    fn post_inherents() {
        ORDER.lock().unwrap().push("post 1");
    }
}
impl PostInherents for Second {
    fn post_inherents() {
        ORDER.lock().unwrap().push("post 2");
    }
}
impl PostTransactions for First {
    fn post_transactions() {
        ORDER.lock().unwrap().push("tx 1");
    }
}
impl PostTransactions for Second {
    fn post_transactions() {
        ORDER.lock().unwrap().push("tx 2");
    }
}
impl OnFinalize<u32> for First {
    fn on_finalize(_n: u32) {
        ORDER.lock().unwrap().push("finalize 1");
    }
}
impl OnFinalize<u32> for Second {
    fn on_finalize(_n: u32) {
        ORDER.lock().unwrap().push("finalize 2");
    }
}
impl OnGenesis for First {
    fn on_genesis() {
        ORDER.lock().unwrap().push("genesis 1");
    }
}
impl OnGenesis for Second {
    fn on_genesis() {
        ORDER.lock().unwrap().push("genesis 2");
    }
}
impl IntegrityTest for First {
    fn integrity_test() {
        ORDER.lock().unwrap().push("integrity 1");
    }
}
impl IntegrityTest for Second {
    fn integrity_test() {
        ORDER.lock().unwrap().push("integrity 2");
    }
}
impl OnTimestampSet<u64> for First {
    fn on_timestamp_set(moment: u64) {
        assert_eq!(moment, 12);
        ORDER.lock().unwrap().push("timestamp 1");
    }
}
impl OnTimestampSet<u64> for Second {
    fn on_timestamp_set(moment: u64) {
        assert_eq!(moment, 12);
        ORDER.lock().unwrap().push("timestamp 2");
    }
}
impl OnPoll<u32> for First {
    fn on_poll(_n: u32, weight: &mut WeightMeter) {
        ORDER.lock().unwrap().push("poll 1");
        weight.try_consume(Weight::from_parts(4, 0)).unwrap();
    }
}
impl OnPoll<u32> for Second {
    fn on_poll(_n: u32, weight: &mut WeightMeter) {
        ORDER.lock().unwrap().push("poll 2");
        assert!(weight.try_consume(Weight::from_parts(4, 0)).is_err());
    }
}

#[test]
fn hooks_of_a_tuple_run_in_declaration_order() {
    <(First, Second, Third)>::pre_inherents();
    <((First,), ())>::pre_inherents();
    <(First, Second)>::post_inherents();
    <(First, (Second, First))>::post_transactions();
    <(Second, First)>::on_finalize(1);
    <(First, Second, First)>::on_genesis();
    <(First, Second)>::integrity_test();
    <(First, Second)>::on_timestamp_set(12);
    let mut meter = WeightMeter::with_limit(Weight::from_parts(5, 5));
    <(First, Second)>::on_poll(1, &mut meter);
    assert_eq!(meter.consumed(), Weight::from_parts(4, 0));
    assert_eq!(
        take(&ORDER),
        vec![
            "pre 1",
            "pre 2",
            "pre 1",
            "post 1",
            "post 2",
            "tx 1",
            "tx 2",
            "tx 1",
            "finalize 2",
            "finalize 1",
            "genesis 1",
            "genesis 2",
            "genesis 1",
            "integrity 1",
            "integrity 2",
            "timestamp 1",
            "timestamp 2",
            "poll 1",
            "poll 2",
        ]
    );
}

struct Pallet;
impl Hooks<u32> for Pallet {}
impl UncheckedOnRuntimeUpgrade for Pallet {}
impl OnIdle<u32> for Pallet {}
impl OnInitialize<u32> for Pallet {}
impl BeforeAllRuntimeMigrations for Pallet {}
impl OnRuntimeUpgrade for Pallet {}

#[test]
fn hooks_do_nothing_unless_told_otherwise() {
    assert_eq!(<Pallet as Hooks<u32>>::on_initialize(1), Weight::zero());
    assert_eq!(<Pallet as Hooks<u32>>::on_idle(1, Weight::from_parts(5, 5)), Weight::zero());
    assert_eq!(<Pallet as Hooks<u32>>::on_runtime_upgrade(), Weight::zero());
    assert_eq!(<Pallet as Hooks<u32>>::try_state(1), Ok(()));
    assert_eq!(<Pallet as Hooks<u32>>::pre_upgrade(), Ok(vec![]));
    assert_eq!(<Pallet as Hooks<u32>>::post_upgrade(vec![1]), Ok(()));
    <Pallet as Hooks<u32>>::on_finalize(1);
    <Pallet as Hooks<u32>>::offchain_worker(1);
    <Pallet as Hooks<u32>>::integrity_test();
    let mut meter = WeightMeter::with_limit(Weight::from_parts(5, 5));
    <Pallet as Hooks<u32>>::on_poll(1, &mut meter);
    assert_eq!(meter.consumed(), Weight::zero());
    assert_eq!(<Pallet as UncheckedOnRuntimeUpgrade>::on_runtime_upgrade(), Weight::zero());
    assert_eq!(<Pallet as UncheckedOnRuntimeUpgrade>::pre_upgrade(), Ok(vec![]));
    assert_eq!(<Pallet as UncheckedOnRuntimeUpgrade>::post_upgrade(vec![]), Ok(()));
    assert_eq!(<Pallet as OnIdle<u32>>::on_idle(1, Weight::from_parts(5, 5)), Weight::zero());
    assert_eq!(<Pallet as OnInitialize<u32>>::on_initialize(1), Weight::zero());
    assert_eq!(Pallet::before_all_runtime_migrations(), Weight::zero());
    assert_eq!(<Pallet as OnRuntimeUpgrade>::try_on_runtime_upgrade(true), Ok(Weight::zero()));
    ().build();
}

static TABLE_ORDER: Mutex<Vec<(u8, Weight)>> = Mutex::new(Vec::new());

fn idle_1(_n: u64, remaining: Weight) -> Weight {
    TABLE_ORDER.lock().unwrap().push((1, remaining));
    Weight::from_parts(1, 0)
}
fn idle_2(_n: u64, remaining: Weight) -> Weight {
    TABLE_ORDER.lock().unwrap().push((2, remaining));
    Weight::from_parts(2, 0)
}
fn idle_3(_n: u64, remaining: Weight) -> Weight {
    TABLE_ORDER.lock().unwrap().push((3, remaining));
    Weight::from_parts(3, 0)
}
fn idle_4(_n: u64, remaining: Weight) -> Weight {
    TABLE_ORDER.lock().unwrap().push((4, remaining));
    Weight::from_parts(4, 0)
}
fn idle_5(_n: u64, remaining: Weight) -> Weight {
    TABLE_ORDER.lock().unwrap().push((5, remaining));
    Weight::from_parts(5, 0)
}

#[test]
fn round_robin_over_a_table_of_hooks() {
    let table: Vec<fn(u64, Weight) -> Weight> = vec![idle_1, idle_2, idle_3, idle_4, idle_5];
    let w = |t| Weight::from_parts(t, 0);
    assert_eq!(on_idle_round_robin(&table, 0, w(10)), w(15));
    assert_eq!(
        std::mem::take(&mut *TABLE_ORDER.lock().unwrap()),
        vec![(1, w(10)), (2, w(9)), (3, w(7)), (4, w(4)), (5, w(0))]
    );
    assert_eq!(on_idle_round_robin(&table, 13, w(100)), w(15));
    assert_eq!(
        std::mem::take(&mut *TABLE_ORDER.lock().unwrap()),
        vec![(4, w(100)), (5, w(96)), (1, w(91)), (2, w(90)), (3, w(88))]
    );
    let single: Vec<fn(u64, Weight) -> Weight> = vec![idle_2];
    assert_eq!(on_idle_round_robin(&single, u64::MAX, w(1)), w(2));
    assert_eq!(std::mem::take(&mut *TABLE_ORDER.lock().unwrap()), vec![(2, w(1))]);
}

#[test]
fn tuples_say_how_their_checks_are_to_be_run() {
    assert_eq!(
        <(Test, Test)>::pre_upgrade(),
        Err(TryRuntimeError(
            "Usage of `pre_upgrade` with Tuples is not expected. Please use `try_on_runtime_upgrade` instead, which internally calls `pre_upgrade` -> `on_runtime_upgrade` -> `post_upgrade` for each tuple member."
        ))
    );
    assert_eq!(
        <(Test, Test)>::post_upgrade(vec![]),
        Err(TryRuntimeError(
            "Usage of `post_upgrade` with Tuples is not expected. Please use `try_on_runtime_upgrade` instead, which internally calls `pre_upgrade` -> `on_runtime_upgrade` -> `post_upgrade` for each tuple member."
        ))
    );
}

struct Takes3;
struct Takes4;
impl OnPoll<u64> for Takes3 {
    fn on_poll(_n: u64, weight: &mut WeightMeter) {
        let _ = weight.try_consume(Weight::from_parts(3, 1));
    }
}
impl OnPoll<u64> for Takes4 {
    fn on_poll(_n: u64, weight: &mut WeightMeter) {
        let _ = weight.try_consume(Weight::from_parts(4, 1));
    }
}

#[test]
fn polled_hooks_share_one_meter() {
    let limit = Weight::from_parts(10, 10);
    let mut meter = WeightMeter::with_limit(limit);
    <() as OnPoll<u64>>::on_poll(1, &mut meter);
    assert_eq!(meter.consumed(), Weight::zero());
    <(Takes3,)>::on_poll(1, &mut meter);
    assert_eq!(meter.consumed(), Weight::from_parts(3, 1));
    let mut meter = WeightMeter::with_limit(limit);
    <(Takes3, Takes4)>::on_poll(1, &mut meter);
    assert_eq!(meter.consumed(), Weight::from_parts(7, 2));
    // the third hook finds too little left and consumes nothing
    let mut meter = WeightMeter::with_limit(limit);
    <(Takes4, Takes3, Takes4)>::on_poll(1, &mut meter);
    assert_eq!(meter.consumed(), Weight::from_parts(7, 2));
    assert_eq!(meter.remaining(), Weight::from_parts(3, 8));
    let mut meter = WeightMeter::with_limit(limit);
    <(Takes3, Takes3, Takes4)>::on_poll(1, &mut meter);
    assert_eq!(meter.consumed(), Weight::from_parts(10, 3));
    assert_eq!(meter.limit(), limit);
}
