use gstools_core::local_krige::{
    collect_outcomes, lhs_layout, rhs_layout, LhsEntry, LocalKrigeError, RhsEntry, SingularSystem,
    TargetOutcome,
};

#[test]
fn no_neighbors_message_names_the_target_point() {
    let e = LocalKrigeError::NoNeighbors { target_index: 0 };
    assert_eq!(
        e.message(),
        "no conditioning points within local_radius for target point 0; increase local_radius"
    );
    let e = LocalKrigeError::NoNeighbors { target_index: 1207 };
    assert_eq!(
        e.message(),
        "no conditioning points within local_radius for target point 1207; increase local_radius"
    );
}

#[test]
fn singular_system_message_names_the_target_point() {
    let e = LocalKrigeError::SingularSystem { target_index: 42 };
    assert_eq!(
        e.message(),
        "local kriging matrix for target point 42 is singular even for the least-squares fallback"
    );
}

#[test]
fn message_renders_large_indices_like_display() {
    for idx in [9usize, 10, 99, 100, 1_000_001, usize::MAX] {
        let e = LocalKrigeError::SingularSystem { target_index: idx };
        assert_eq!(
            e.message(),
            format!(
                "local kriging matrix for target point {idx} is singular even for the \
                 least-squares fallback"
            )
        );
    }
}

#[test]
fn singular_system_marker_compares_equal() {
    assert_eq!(SingularSystem, SingularSystem);
}

#[test]
fn lhs_layout_plain_two_neighbours() {
    // two neighbours, no drift, not unbiased: just the covariance block
    let m = lhs_layout(2, 0, false);
    assert_eq!(m.len(), 2);
    assert_eq!(
        m[0],
        vec![
            LhsEntry::CovariancePlusError { neighbor: 0 },
            LhsEntry::Covariance { row: 0, col: 1 }
        ]
    );
    assert_eq!(
        m[1],
        vec![
            LhsEntry::Covariance { row: 1, col: 0 },
            LhsEntry::CovariancePlusError { neighbor: 1 }
        ]
    );
}

#[test]
fn lhs_layout_unbiased_adds_ones_row_and_column() {
    let m = lhs_layout(2, 0, true);
    assert_eq!(m.len(), 3);
    assert_eq!(m[2], vec![LhsEntry::One, LhsEntry::One, LhsEntry::Zero]);
    let col2: Vec<LhsEntry> = m.iter().map(|row| row[2]).collect();
    assert_eq!(col2, vec![LhsEntry::One, LhsEntry::One, LhsEntry::Zero]);
}

#[test]
fn lhs_layout_with_drift_terms() {
    let m = lhs_layout(2, 2, true);
    assert_eq!(m.len(), 5);
    for row in &m {
        assert_eq!(row.len(), 5);
    }
    assert_eq!(m[3][0], LhsEntry::Drift { term: 0, neighbor: 0 });
    assert_eq!(m[4][1], LhsEntry::Drift { term: 1, neighbor: 1 });
    assert_eq!(m[1][4], LhsEntry::Drift { term: 1, neighbor: 1 });
    assert_eq!(m[0][3], LhsEntry::Drift { term: 0, neighbor: 0 });
    // the constraint block is all zeros
    for r in 2..5 {
        for c in 2..5 {
            assert_eq!(m[r][c], LhsEntry::Zero);
        }
    }
    // drift rows without the unbiasedness row start right after the neighbours
    let m = lhs_layout(1, 1, false);
    assert_eq!(m[1][0], LhsEntry::Drift { term: 0, neighbor: 0 });
    assert_eq!(m[1][1], LhsEntry::Zero);
}

#[test]
fn lhs_layout_is_symmetric() {
    let m = lhs_layout(3, 2, true);
    for r in 0..m.len() {
        for c in 0..m.len() {
            let mirrored = match m[c][r] {
                LhsEntry::Covariance { row, col } => LhsEntry::Covariance { row: col, col: row },
                e => e,
            };
            assert_eq!(m[r][c], mirrored);
        }
    }
}

#[test]
fn lhs_layout_of_empty_neighbourhood() {
    assert!(lhs_layout(0, 0, false).is_empty());
    assert_eq!(lhs_layout(0, 0, true), vec![vec![LhsEntry::Zero]]);
}

#[test]
fn rhs_layout_uses_cov_nugget_only_in_exact_mode() {
    let normal = rhs_layout(2, 0, false, false);
    let exact = rhs_layout(2, 0, true, false);
    assert_eq!(
        normal,
        vec![RhsEntry::Covariance { neighbor: 0 }, RhsEntry::Covariance { neighbor: 1 }]
    );
    assert_eq!(
        exact,
        vec![RhsEntry::CovNugget { neighbor: 0 }, RhsEntry::CovNugget { neighbor: 1 }]
    );
}

#[test]
fn rhs_layout_matches_lhs_padding() {
    let v = rhs_layout(2, 2, false, true);
    let m = lhs_layout(2, 2, true);
    assert_eq!(v.len(), m.len());
    assert_eq!(
        v,
        vec![
            RhsEntry::Covariance { neighbor: 0 },
            RhsEntry::Covariance { neighbor: 1 },
            RhsEntry::One,
            RhsEntry::Drift { term: 0 },
            RhsEntry::Drift { term: 1 },
        ]
    );
    assert_eq!(rhs_layout(1, 2, true, false)[1], RhsEntry::Drift { term: 0 });
}

#[test]
fn collect_outcomes_all_solved_keeps_order() {
    let outcomes = vec![
        TargetOutcome::Solved((1u32, 10u32)),
        TargetOutcome::Solved((2, 20)),
        TargetOutcome::Solved((3, 30)),
    ];
    assert_eq!(collect_outcomes(&outcomes), Ok(vec![(1, 10), (2, 20), (3, 30)]));
    let none: Vec<TargetOutcome<u8>> = Vec::new();
    assert_eq!(collect_outcomes(&none), Ok(Vec::new()));
}

#[test]
fn collect_outcomes_reports_first_failure() {
    let outcomes = vec![
        TargetOutcome::Solved(1u8),
        TargetOutcome::NoNeighbors,
        TargetOutcome::Singular,
    ];
    assert_eq!(
        collect_outcomes(&outcomes),
        Err(LocalKrigeError::NoNeighbors { target_index: 1 })
    );
    let outcomes = vec![TargetOutcome::Singular, TargetOutcome::NoNeighbors];
    assert_eq!(
        collect_outcomes::<u8>(&outcomes),
        Err(LocalKrigeError::SingularSystem { target_index: 0 })
    );
    let outcomes = vec![
        TargetOutcome::Solved(5u8),
        TargetOutcome::Solved(6u8),
        TargetOutcome::Singular,
    ];
    assert_eq!(
        collect_outcomes(&outcomes),
        Err(LocalKrigeError::SingularSystem { target_index: 2 })
    );
}

#[test]
fn layout_entries_refer_to_existing_neighbours_and_terms() {
    let (k, p) = (4usize, 3usize);
    for unbiased in [false, true] {
        let m = lhs_layout(k, p, unbiased);
        for (r, row) in m.iter().enumerate() {
            for (c, e) in row.iter().enumerate() {
                match *e {
                    LhsEntry::Covariance { row, col } => assert!(row < k && col < k && row != col),
                    LhsEntry::CovariancePlusError { neighbor } => {
                        assert!(neighbor < k && neighbor == r && r == c)
                    }
                    LhsEntry::Drift { term, neighbor } => assert!(term < p && neighbor < k),
                    LhsEntry::One | LhsEntry::Zero => {}
                }
            }
        }
        for exact in [false, true] {
            for (i, e) in rhs_layout(k, p, exact, unbiased).iter().enumerate() {
                match *e {
                    RhsEntry::Covariance { neighbor } => assert!(neighbor < k && !exact),
                    RhsEntry::CovNugget { neighbor } => assert!(neighbor < k && exact),
                    RhsEntry::Drift { term } => assert!(term < p),
                    RhsEntry::One => assert!(unbiased && i == k),
                }
            }
        }
    }
}
