use iron_canvas_core::address::{DenseRange, RCRange};

#[test]
fn dense_full_address_span_never_wraps_to_zero() {
    let dense = DenseRange::from_rc(RCRange::from([i32::MIN, i32::MIN, i32::MAX, i32::MAX]));
    let expected = usize::try_from(1_u64 << 32).unwrap_or(usize::MAX);
    assert_eq!(dense.height(), expected);
    assert_eq!(dense.width(), expected);
    assert_eq!(dense.addressed_cells(), usize::MAX);
}

#[test]
fn dense_range_parses_reversed_corners_into_full_area() {
    let dense = DenseRange::from_rc(RCRange { r1: 5, c1: 3, r2: 2, c2: 1 });
    assert_eq!(dense.as_rc(), RCRange { r1: 2, c1: 1, r2: 5, c2: 3 });
    assert_eq!(dense.height(), 4);
    assert_eq!(dense.width(), 3);
    assert_eq!(dense.addressed_cells(), 12);
}

#[test]
fn reversed_range_geometry_matches_normalized() {
    let reversed = RCRange { r1: 5, c1: 3, r2: 2, c2: 1 };
    let forward = reversed.normalized();

    assert_eq!(reversed.height(), forward.height());
    assert_eq!(reversed.width(), forward.width());
    assert!(reversed.height() > 0 && reversed.width() > 0);

    assert!(reversed.contains(3, 2));
    assert!(!reversed.contains(6, 2));

    let cells = reversed.cells();
    assert_eq!(cells, forward.cells());
    assert!(!cells.is_empty());
}

#[test]
fn grow_by_normalizes_and_saturates_without_clamping_to_one() {
    let grown = RCRange { r1: 3, c1: 2, r2: 1, c2: 4 }.grow_by(2);
    assert_eq!(grown, RCRange { r1: -1, c1: 0, r2: 5, c2: 6 });

    assert_eq!(
        RCRange::from_cell(i32::MAX, i32::MIN).grow_by(1),
        RCRange { r1: i32::MAX - 1, c1: i32::MIN, r2: i32::MAX, c2: i32::MIN + 1 }
    );
}

#[test]
fn cells_are_row_major_and_count_the_area() {
    let cells = RCRange { r1: 2, c1: 1, r2: 1, c2: 2 }.cells();
    assert_eq!(cells, vec![(1, 1), (1, 2), (2, 1), (2, 2)]);
}

#[test]
fn single_cell_and_containment_ignore_corner_order() {
    let a = RCRange { r1: 4, c1: 4, r2: 4, c2: 4 };
    assert!(a.is_single_cell());
    let b = RCRange { r1: 1, c1: 1, r2: 3, c2: 3 };
    let b_swapped = RCRange { r1: 3, c1: 3, r2: 1, c2: 1 };
    for r in 0..5 {
        for c in 0..5 {
            assert_eq!(b.contains(r, c), b_swapped.contains(r, c));
        }
    }
}
