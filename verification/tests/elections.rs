use bridge_target::elections::{
    assignment_ratio_to_staked, assignment_ratio_to_staked_normalized, assignment_staked_to_ratio,
    assignment_staked_to_ratio_normalized, Assignment, Error, Perbill, StakedAssignment,
    VoteWeight, ACCURACY,
};
use bridge_target::supports::{supports_to_staked_assignment, IdentifierT, Support};
use sp_arithmetic::Normalizable;

/// The ratio that is nearest to `x`.
fn from_float(x: f64) -> Perbill {
    Perbill::from_parts(sp_arithmetic::Perbill::from_float(x).deconstruct())
}

#[test]
fn into_staked_works() {
    let assignments = vec![
        Assignment {
            who: 1u32,
            distribution: vec![(10u32, from_float(0.5)), (20, from_float(0.5))],
        },
        Assignment {
            who: 2u32,
            distribution: vec![(10, from_float(0.33)), (20, from_float(0.67))],
        },
    ];

    let stake_of = |_: &u32| -> VoteWeight { 100 };
    let staked = assignment_ratio_to_staked(assignments, stake_of);

    assert_eq!(
        staked,
        vec![
            StakedAssignment { who: 1u32, distribution: vec![(10u32, 50), (20, 50),] },
            StakedAssignment { who: 2u32, distribution: vec![(10u32, 33), (20, 67),] }
        ]
    );
}

#[test]
fn ratios_are_clamped_to_the_whole() {
    assert_eq!(ACCURACY, 1_000_000_000);
    assert_eq!(Perbill::from_parts(5).deconstruct(), 5);
    assert_eq!(Perbill::from_parts(ACCURACY + 1).deconstruct(), ACCURACY);
    assert_eq!(Perbill(u32::MAX).deconstruct(), ACCURACY);
    assert_eq!(Perbill::one().deconstruct(), ACCURACY);
    assert_eq!(Perbill::zero().deconstruct(), 0);
    assert!(Perbill::zero().is_zero());
    assert!(!Perbill::one().is_zero());
}

#[test]
fn shares_are_rounded_to_the_nearest_and_down_on_a_tie() {
    let share = |parts: u32, stake: u128| {
        Assignment { who: 0u8, distribution: vec![(1u8, Perbill::from_parts(parts))] }
            .into_staked(stake)
            .distribution
    };
    assert_eq!(share(500_000_000, 3), vec![(1, 1)]);
    assert_eq!(share(500_000_001, 3), vec![(1, 2)]);
    assert_eq!(share(333_333_333, 3), vec![(1, 1)]);
    assert_eq!(share(1, 2_000_000_000), vec![(1, 2)]);
    assert_eq!(share(1, 1_500_000_000), vec![(1, 1)]);
    assert_eq!(share(1, 1_500_000_001), vec![(1, 2)]);
    assert_eq!(share(ACCURACY, u128::MAX), vec![(1, u128::MAX)]);
    assert_eq!(
        share(ACCURACY - 1, u128::MAX),
        vec![(1, sp_arithmetic::Perbill::from_parts(ACCURACY - 1) * u128::MAX)]
    );
    assert_eq!(share(0, 1000), vec![]);
    assert_eq!(share(1, 10), vec![(1, 0)]);
    for (parts, stake) in [(7u32, 13u128), (999_999_999, 1 << 90), (123_456_789, 987_654_321_987)] {
        assert_eq!(
            share(parts, stake),
            vec![(1, sp_arithmetic::Perbill::from_parts(parts) * stake)]
        );
    }
}

#[test]
fn zero_ratios_are_left_out_of_the_staked_assignment() {
    let assignment = Assignment {
        who: 1u64,
        distribution: vec![
            (10u64, Perbill::zero()),
            (20, Perbill::from_parts(250_000_000)),
            (30, Perbill::zero()),
            (40, Perbill::from_parts(750_000_000)),
        ],
    };
    assert_eq!(
        assignment.to_staked(1000),
        StakedAssignment { who: 1, distribution: vec![(20, 250), (40, 750)] }
    );
    assert_eq!(
        assignment.into_staked(8),
        StakedAssignment { who: 1, distribution: vec![(20, 2), (40, 6)] }
    );
}

#[test]
fn staked_assignment_becomes_ratios_of_its_total() {
    let staked = StakedAssignment { who: 1u32, distribution: vec![(10u32, 1), (20, 2), (30, 0)] };
    assert_eq!(staked.total(), 3);
    let assignment = staked.clone().into_assignment();
    assert_eq!(
        assignment,
        Assignment {
            who: 1,
            distribution: vec![
                (10, Perbill::from_parts(333_333_333)),
                (20, Perbill::from_parts(666_666_666)),
            ],
        }
    );
    assert_eq!(
        assignment_staked_to_ratio(vec![staked.clone(), staked.clone()]),
        vec![assignment.clone(), assignment]
    );
    let nothing = StakedAssignment { who: 1u32, distribution: vec![(10u32, 0)] };
    assert_eq!(
        nothing.into_assignment(),
        Assignment { who: 1, distribution: vec![(10, Perbill::one())] }
    );
    let saturated = StakedAssignment { who: 1u32, distribution: vec![(1u32, u128::MAX), (2, 5)] };
    assert_eq!(saturated.total(), u128::MAX);
    assert_eq!(
        saturated.to_assignment().distribution,
        vec![(1, Perbill::one())]
    );
}

#[test]
fn staked_assignment_is_normalized_around_the_stake() {
    let mut staked = StakedAssignment { who: 1u32, distribution: vec![(10u32, 10), (20, 20)] };
    assert_eq!(staked.try_normalize(31), Ok(()));
    assert_eq!(staked.distribution, vec![(10, 11), (20, 20)]);
    assert_eq!(vec![10u128, 20].normalize(31), Ok(vec![11, 20]));

    let mut staked = StakedAssignment { who: 1u32, distribution: vec![(10u32, 10), (20, 20)] };
    assert_eq!(staked.try_normalize(25), Ok(()));
    assert_eq!(
        staked.distribution.iter().map(|e| e.1).collect::<Vec<_>>(),
        vec![10u128, 20].normalize(25).unwrap()
    );
    assert_eq!(staked.total(), 25);

    let mut overflowing =
        StakedAssignment { who: 1u32, distribution: vec![(10u32, u128::MAX), (20, 1)] };
    assert_eq!(overflowing.try_normalize(10), Err("sum of input cannot fit in `T`"));
    assert_eq!(overflowing.distribution, vec![(10, u128::MAX), (20, 1)]);
}

#[test]
fn ratio_assignment_is_normalized_around_the_whole() {
    let mut assignment = Assignment {
        who: 1u32,
        distribution: vec![
            (10u32, Perbill::from_parts(500_000_000)),
            (20, Perbill::from_parts(400_000_000)),
        ],
    };
    assert_eq!(assignment.try_normalize(), Ok(()));
    assert_eq!(
        assignment.distribution,
        vec![(10, Perbill::from_parts(500_000_000)), (20, Perbill::from_parts(500_000_000))]
    );
    let theirs = vec![
        sp_arithmetic::Perbill::from_parts(500_000_000),
        sp_arithmetic::Perbill::from_parts(400_000_000),
    ]
    .normalize(sp_arithmetic::Perbill::one())
    .unwrap();
    assert_eq!(
        assignment.distribution.iter().map(|e| e.1.deconstruct()).collect::<Vec<_>>(),
        theirs.iter().map(|p| p.deconstruct()).collect::<Vec<_>>()
    );
}

#[test]
fn normalized_conversions_give_exact_sums() {
    let ratios = vec![
        Assignment {
            who: 1u32,
            distribution: vec![
                (10u32, Perbill::from_parts(333_333_333)),
                (20, Perbill::from_parts(333_333_333)),
                (30, Perbill::from_parts(333_333_334)),
            ],
        },
        Assignment { who: 2u32, distribution: vec![(10, from_float(0.5)), (20, from_float(0.5))] },
    ];
    let stake_of = |who: &u32| -> VoteWeight { 100 * (*who as u64) };
    let staked = assignment_ratio_to_staked_normalized(ratios, stake_of).unwrap();
    assert_eq!(staked.len(), 2);
    assert_eq!(staked[0].who, 1);
    assert_eq!(staked[0].total(), 100);
    assert_eq!(
        staked[0].distribution.iter().map(|e| e.1).collect::<Vec<_>>(),
        vec![33u128, 33, 33].normalize(100).unwrap()
    );
    assert_eq!(staked[1], StakedAssignment { who: 2, distribution: vec![(10, 100), (20, 100)] });

    let back = assignment_staked_to_ratio_normalized(staked).unwrap();
    assert_eq!(back.len(), 2);
    for assignment in back.iter() {
        let sum: u64 = assignment.distribution.iter().map(|e| e.1.deconstruct() as u64).sum();
        assert_eq!(sum, ACCURACY as u64);
    }
    assert_eq!(back[1].distribution, vec![(10, from_float(0.5)), (20, from_float(0.5))]);
}

#[test]
fn amounts_whose_sum_overflows_cannot_be_normalized() {
    let mut staked =
        StakedAssignment { who: 9u32, distribution: vec![(1u32, u128::MAX), (2, u128::MAX)] };
    assert_eq!(staked.try_normalize(5), Err("sum of input cannot fit in `T`"));
    assert_eq!(Error::ArithmeticError("sum of input cannot fit in `T`"), {
        let reason = staked.try_normalize(5).unwrap_err();
        Error::ArithmeticError(reason)
    });
}

#[test]
fn largest_stake_is_converted_without_loss() {
    let staked = assignment_ratio_to_staked_normalized(
        vec![Assignment { who: 1u32, distribution: vec![(10u32, from_float(1.0))] }],
        |_: &u32| -> VoteWeight { u64::MAX },
    );
    assert_eq!(
        staked,
        Ok::<_, Error>(vec![StakedAssignment {
            who: 1,
            distribution: vec![(10, u64::MAX as u128)]
        }])
    );
}

#[test]
fn supports_are_regrouped_by_voter() {
    let supports = vec![
        (20u32, Support { total: 15, voters: vec![(3u32, 5), (1, 10)] }),
        (10u32, Support { total: 30, voters: vec![(1u32, 20), (2, 7), (3, 3)] }),
        (30u32, Support { total: 0, voters: vec![] }),
        (40u32, Support { total: 1, voters: vec![(1u32, 1)] }),
    ];
    assert_eq!(
        supports_to_staked_assignment(supports),
        vec![
            StakedAssignment { who: 1, distribution: vec![(20, 10), (10, 20), (40, 1)] },
            StakedAssignment { who: 2, distribution: vec![(10, 7)] },
            StakedAssignment { who: 3, distribution: vec![(20, 5), (10, 3)] },
        ]
    );
    assert_eq!(supports_to_staked_assignment::<u64>(vec![]), vec![]);
    assert!(1u64.precedes(&2));
    assert!(!2u32.precedes(&2));
    assert!(!3u128.precedes(&2));
}

/// The share of `parts` per billion of `x`, rounded to the nearest whole number and
/// down on a tie.
fn share_of(parts: u32, x: u128) -> u128 {
    let whole = (x / 1_000_000_000) * parts as u128;
    let rest = (x % 1_000_000_000) * parts as u128;
    whole + rest / 1_000_000_000 + if rest % 1_000_000_000 > 500_000_000 { 1 } else { 0 }
}

#[test]
fn shares_follow_the_rounding_rule_for_small_and_large_stakes() {
    let parts = [0u32, 1, 2, 499_999_999, 500_000_000, 500_000_001, 999_999_999, 1_000_000_000];
    let stakes = [
        0u128,
        1,
        2,
        3,
        999_999_999,
        1_000_000_000,
        1_000_000_001,
        1_500_000_000,
        2_500_000_000,
        u64::MAX as u128,
        1 << 100,
        u128::MAX - 1,
        u128::MAX,
    ];
    for p in parts {
        for x in stakes {
            let staked = Assignment { who: 0u8, distribution: vec![(1u8, Perbill::from_parts(p))] }
                .into_staked(x);
            let expected = if p == 0 { vec![] } else { vec![(1u8, share_of(p, x))] };
            assert_eq!(staked.distribution, expected, "{p} parts of {x}");
        }
    }
}

#[test]
fn ratios_of_a_total_are_rounded_down() {
    // (amount, rest of the total, parts of the amount in the total)
    let cases: [(u128, u128, u32); 9] = [
        (1, 2, 333_333_333),
        (2, 1, 666_666_666),
        (1, 0, 1_000_000_000),
        (1, 999_999_999, 1),
        (1, 1_000_000_000, 0),
        (999_999_999, 1, 999_999_999),
        (1 << 100, 1 << 100, 500_000_000),
        (1 << 126, (1 << 126) + (1 << 125), 400_000_000),
        (7, 13, 350_000_000),
    ];
    for (amount, rest, parts) in cases {
        let staked = StakedAssignment { who: 0u8, distribution: vec![(1u8, amount), (2u8, rest)] };
        assert_eq!(staked.total(), amount + rest);
        let ratios = staked.into_assignment().distribution;
        let first: Vec<u32> =
            ratios.iter().filter(|e| e.0 == 1).map(|e| e.1.deconstruct()).collect();
        let expected = if parts == 0 { vec![] } else { vec![parts] };
        assert_eq!(first, expected, "{amount} of {}", amount + rest);
    }
}
