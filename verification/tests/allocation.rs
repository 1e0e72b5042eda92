use metering::allocation::{
    allocate, allocation_share, try_allocate, validate_key, AllocatedPart, AllocationBasis,
    AllocationError, AllocationPart,
};
use metering::decimal::Dec;

fn d(num: i64, scale: u32) -> Dec {
    Dec::new(num, scale)
}

fn parts(spec: &[(&str, Dec, Option<Dec>)]) -> Vec<AllocationPart> {
    spec.iter()
        .map(|(k, w, c)| AllocationPart {
            key: (*k).to_owned(),
            weight: *w,
            capacity: *c,
        })
        .collect()
}

#[test]
fn proportional_splits_and_conserves() {
    let row = allocate(
        d(10, 0),
        parts(&[("a", d(1, 0), None), ("b", d(2, 0), None)]),
        AllocationBasis::Proportional,
    )
    .unwrap();
    assert_eq!(row.parts[0].allocated, d(3333333, 6));
    assert_eq!(row.parts[1].allocated, d(6666666, 6));
    assert_eq!(row.allocated().checked_add(&row.residual), Some(row.total));
}

#[test]
fn a_repeating_quotient_still_conserves() {
    let row = allocate(
        d(1, 0),
        parts(&[("a", d(1, 0), None), ("b", d(1, 0), None), ("c", d(1, 0), None)]),
        AllocationBasis::Proportional,
    )
    .unwrap();
    assert_eq!(row.allocated(), d(999999, 6));
    assert_eq!(row.residual, d(1, 6));
    assert_eq!(row.allocated().checked_add(&row.residual), Some(row.total));
}

#[test]
fn a_zero_weight_sum_leaves_everything_in_the_residual() {
    let row = allocate(
        d(7, 0),
        parts(&[("a", Dec::zero(), None), ("b", Dec::zero(), None)]),
        AllocationBasis::Proportional,
    )
    .unwrap();
    assert!(row.parts.iter().all(|p| p.share.is_zero()));
    assert_eq!(row.residual, d(7, 0));
}

#[test]
fn a_ceiling_moves_the_difference_to_the_residual() {
    let row = allocate(
        d(10, 0),
        parts(&[("a", d(1, 0), Some(d(2, 0))), ("b", d(1, 0), Some(d(99, 0)))]),
        AllocationBasis::Proportional,
    )
    .unwrap();
    assert_eq!(row.parts[0].allocated, d(2, 0));
    assert!(row.parts[0].capped());
    assert_eq!(row.parts[0].forgone(), d(3, 0));
    assert_eq!(row.parts[1].allocated, d(5, 0));
    assert_eq!(row.residual, d(3, 0));
    assert_eq!(row.allocated().checked_add(&row.residual), Some(row.total));
}

#[test]
fn fractions_are_absolute_and_the_rest_is_residual() {
    let row = allocate(
        d(8, 0),
        parts(&[("a", d(25, 2), None)]),
        AllocationBasis::Fraction,
    )
    .unwrap();
    assert_eq!(row.parts[0].allocated, d(200, 2));
    assert_eq!(row.residual, d(600, 2));
}

#[test]
fn over_subscribed_fractions_are_refused() {
    assert_eq!(
        allocate(
            d(8, 0),
            parts(&[("a", d(7, 1), None), ("b", d(5, 1), None)]),
            AllocationBasis::Fraction,
        ),
        Err(AllocationError::InvalidFractions { sum: d(12, 1) })
    );
}

#[test]
fn a_zero_fraction_is_refused() {
    assert!(matches!(
        allocate(d(8, 0), parts(&[("a", Dec::zero(), None)]), AllocationBasis::Fraction),
        Err(AllocationError::InvalidFractions { .. })
    ));
}

#[test]
fn a_negative_proportional_weight_is_refused() {
    assert_eq!(
        allocate(
            d(8, 0),
            parts(&[("a", d(-1, 0), None), ("b", d(3, 0), None)]),
            AllocationBasis::Proportional,
        ),
        Err(AllocationError::NegativeWeight {
            key: "a".to_owned(),
            weight: d(-1, 0),
        })
    );
}

#[test]
fn a_negative_capacity_is_refused() {
    assert!(matches!(
        allocate(
            d(8, 0),
            parts(&[("a", d(1, 0), Some(d(-1, 0)))]),
            AllocationBasis::Proportional,
        ),
        Err(AllocationError::NegativeCapacity { .. })
    ));
}

#[test]
fn the_result_does_not_depend_on_the_order_of_the_parts() {
    let spec = [
        ("a", d(1, 0), Some(d(2, 0))),
        ("b", d(2, 0), None),
        ("c", d(3, 0), Some(d(1, 0))),
    ];
    let forward = allocate(d(13, 0), parts(&spec), AllocationBasis::Proportional).unwrap();
    let mut reversed = spec;
    reversed.reverse();
    let backward = allocate(d(13, 0), parts(&reversed), AllocationBasis::Proportional).unwrap();

    assert_eq!(forward.residual, backward.residual);
    for part in &forward.parts {
        assert_eq!(
            Some(part.allocated),
            backward.part(&part.key).map(|p| p.allocated)
        );
    }
}

#[test]
fn an_empty_set_leaves_the_whole_total_as_residual() {
    let row = allocate(d(5, 0), Vec::new(), AllocationBasis::Proportional).unwrap();
    assert!(row.parts.is_empty());
    assert_eq!(row.residual, d(5, 0));
}

#[test]
fn sessions_behind_one_connection_are_capped_at_their_own_meters() {
    let row = allocate(
        d(12, 0),
        vec![
            AllocationPart::new("S1", d(6, 0)).capped_at(d(6, 0)),
            AllocationPart::new("S2", d(3, 0)).capped_at(d(3, 0)),
            AllocationPart::new("S3", d(3, 0)).capped_at(d(1, 0)),
        ],
        AllocationBasis::Proportional,
    )
    .unwrap();
    assert_eq!(row.part("S3").unwrap().share, d(3, 0));
    assert_eq!(row.part("S3").unwrap().allocated, d(1, 0));
    assert!(row.part("S3").unwrap().capped());
    assert!(!row.part("S1").unwrap().capped());
    assert_eq!(row.allocated().checked_add(&row.residual), Some(row.total));
    assert_eq!(row.residual, d(2, 0));
    assert!(row.part("S4").is_none());
}

#[test]
fn fractions_and_proportions_read_the_same_key_differently() {
    let key = vec![
        AllocationPart::new("T1", d(6, 1)),
        AllocationPart::new("T2", d(5, 1)),
    ];
    assert!(validate_key(&key, AllocationBasis::Fraction).is_err());
    assert!(validate_key(&key, AllocationBasis::Proportional).is_ok());
}

#[test]
fn a_duplicate_key_gives_two_rows_and_part_finds_the_first() {
    let row = allocate(
        d(9, 0),
        parts(&[("x", d(1, 0), None), ("x", d(2, 0), None)]),
        AllocationBasis::Proportional,
    )
    .unwrap();
    assert_eq!(row.parts.len(), 2);
    assert_eq!(row.part("x").unwrap().allocated, d(2999999, 6));
}

#[test]
fn a_share_is_cut_toward_zero_at_six_places() {
    assert_eq!(allocation_share(d(12345678, 7)), d(1234567, 6));
    assert_eq!(allocation_share(d(-12345678, 7)), d(-1234567, 6));
    assert_eq!(allocation_share(d(15, 1)).scale(), 1);
    assert_eq!(allocation_share(d(19999999, 7)).mantissa(), 1999999);
}

#[test]
fn a_negative_share_is_allocated_nothing() {
    let row = allocate(
        d(-4, 0),
        parts(&[("a", d(1, 0), None)]),
        AllocationBasis::Proportional,
    )
    .unwrap();
    assert_eq!(row.parts[0].share, d(-4, 0));
    assert_eq!(row.parts[0].allocated, Dec::zero());
    assert_eq!(row.residual, d(-4, 0));
}

#[test]
fn try_allocate_reports_an_overflow_as_none() {
    let max = Dec::from_i128_with_scale(79228162514264337593543950335, 0);
    let key = parts(&[("a", d(1, 0), None), ("b", max, None)]);
    assert_eq!(try_allocate(d(1, 0), key, AllocationBasis::Proportional), None);
    let fine = try_allocate(d(6, 0), parts(&[("a", d(1, 0), None)]), AllocationBasis::Proportional);
    assert_eq!(fine.unwrap().unwrap().residual, Dec::zero());
}

#[test]
fn a_capacity_of_exactly_the_share_is_not_capped() {
    let part = AllocatedPart {
        key: "p".to_owned(),
        weight: d(1, 0),
        share: d(25, 1),
        allocated: d(250, 2),
    };
    assert!(!part.capped());
    assert!(part.forgone().is_zero());
}

#[test]
fn error_messages_name_the_offending_value() {
    assert_eq!(
        AllocationError::InvalidFractions { sum: d(12, 1) }.to_string(),
        "allocation fractions total 1.2 — each must be positive and the total at most 1"
    );
    assert_eq!(
        AllocationError::NegativeWeight { key: "a".to_owned(), weight: d(-1, 0) }.to_string(),
        "proportional weight for a is -1 — a weight cannot be negative"
    );
    assert_eq!(
        AllocationError::NegativeCapacity { key: "b".to_owned(), capacity: d(-25, 1) }.to_string(),
        "capacity for b is -2.5 — a capacity cannot be negative"
    );
}

#[test]
fn a_fraction_key_never_over_allocates_the_pool() {
    // Three thirds cut to six places leave a millionth in the residual.
    let row = allocate(
        d(1, 0),
        parts(&[("a", d(3333333, 7), None), ("b", d(3333333, 7), None), ("c", d(3333334, 7), None)]),
        AllocationBasis::Fraction,
    )
    .unwrap();
    let allocated: Vec<Dec> = row.parts.iter().map(|p| p.allocated).collect();
    let sum = Dec::checked_sum(&allocated).unwrap();
    assert!(!row.total.lt(&sum), "allocated {sum:?} exceeds the pool");
    assert_eq!(sum, d(999999, 6));
    assert_eq!(row.residual, d(1, 6));
}

#[test]
fn a_lone_negative_zero_fraction_is_reported_as_minus_zero() {
    match allocate(d(8, 0), parts(&[("a", Dec::zero().neg(), None)]), AllocationBasis::Fraction) {
        Err(e @ AllocationError::InvalidFractions { .. }) => {
            assert_eq!(
                e.to_string(),
                "allocation fractions total -0 — each must be positive and the total at most 1"
            );
        },
        other => panic!("{other:?}"),
    }
}
