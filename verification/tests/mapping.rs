use led_matrix_host::{FrameError, MatrixConfiguration, Pixel, Wiring, WiringAxis};

const A: Pixel = [1, 0, 0, 255];
const B: Pixel = [2, 0, 0, 255];
const C: Pixel = [3, 0, 0, 255];
const D: Pixel = [4, 0, 0, 255];
const E: Pixel = [5, 0, 0, 255];
const F: Pixel = [6, 0, 0, 255];

fn wiring(width: usize, height: usize, serpentine: bool, axis: WiringAxis) -> Wiring {
    Wiring { width, height, serpentine, axis }
}

#[test]
fn serpentine_rows_reverse_every_odd_row() {
    let w = wiring(3, 2, true, WiringAxis::Rows);
    let frame = vec![vec![A, B, C], vec![D, E, F]];
    assert_eq!(w.map_frame(&frame), Ok(vec![A, B, C, F, E, D]));
}

#[test]
fn straight_rows_are_row_major() {
    let w = wiring(3, 2, false, WiringAxis::Rows);
    let frame = vec![vec![A, B, C], vec![D, E, F]];
    assert_eq!(w.map_frame(&frame), Ok(vec![A, B, C, D, E, F]));
}

#[test]
fn serpentine_rows_over_four_rows() {
    let w = wiring(2, 4, true, WiringAxis::Rows);
    let frame = vec![vec![A, B], vec![C, D], vec![E, F], vec![A, C]];
    assert_eq!(w.map_frame(&frame), Ok(vec![A, B, D, C, E, F, C, A]));
}

#[test]
fn serpentine_columns_reverse_every_odd_column() {
    let w = wiring(2, 3, true, WiringAxis::Columns);
    let frame = vec![vec![A, B], vec![C, D], vec![E, F]];
    assert_eq!(w.map_frame(&frame), Ok(vec![A, C, E, F, D, B]));
}

#[test]
fn straight_columns_are_column_major() {
    let w = wiring(2, 3, false, WiringAxis::Columns);
    let frame = vec![vec![A, B], vec![C, D], vec![E, F]];
    assert_eq!(w.map_frame(&frame), Ok(vec![A, C, E, B, D, F]));
}

#[test]
fn single_led_maps_to_itself() {
    let frame = vec![vec![E]];
    assert_eq!(wiring(1, 1, true, WiringAxis::Rows).map_frame(&frame), Ok(vec![E]));
    assert_eq!(wiring(1, 1, true, WiringAxis::Columns).map_frame(&frame), Ok(vec![E]));
}

#[test]
fn single_serpentine_row_is_unchanged() {
    let w = wiring(3, 1, true, WiringAxis::Rows);
    assert_eq!(w.map_frame(&vec![vec![A, B, C]]), Ok(vec![A, B, C]));
}

#[test]
fn too_few_rows_are_rejected() {
    let w = wiring(3, 2, true, WiringAxis::Rows);
    let frame = vec![vec![A, B, C]];
    assert_eq!(w.map_frame(&frame), Err(FrameError::RowCount { expected: 2, actual: 1 }));
    assert_eq!(w.validate_frame(&frame), Err(FrameError::RowCount { expected: 2, actual: 1 }));
}

#[test]
fn too_many_rows_are_rejected() {
    let w = wiring(1, 1, false, WiringAxis::Rows);
    let frame = vec![vec![A], vec![B], vec![C]];
    assert_eq!(w.map_frame(&frame), Err(FrameError::RowCount { expected: 1, actual: 3 }));
}

#[test]
fn row_count_is_reported_before_row_length() {
    let w = wiring(3, 2, false, WiringAxis::Rows);
    let frame = vec![vec![A]];
    assert_eq!(w.map_frame(&frame), Err(FrameError::RowCount { expected: 2, actual: 1 }));
}

#[test]
fn short_row_is_rejected() {
    let w = wiring(3, 2, true, WiringAxis::Rows);
    let frame = vec![vec![A, B, C], vec![D, E]];
    assert_eq!(
        w.map_frame(&frame),
        Err(FrameError::RowLength { row: 1, expected: 3, actual: 2 })
    );
}

#[test]
fn long_row_is_rejected() {
    let w = wiring(2, 2, false, WiringAxis::Columns);
    let frame = vec![vec![A, B, C], vec![D, E]];
    assert_eq!(
        w.map_frame(&frame),
        Err(FrameError::RowLength { row: 0, expected: 2, actual: 3 })
    );
}

#[test]
fn first_mismatched_row_is_the_one_reported() {
    let w = wiring(2, 4, true, WiringAxis::Rows);
    let frame = vec![vec![A, B], vec![C], vec![D, E], vec![]];
    assert_eq!(
        w.validate_frame(&frame),
        Err(FrameError::RowLength { row: 1, expected: 2, actual: 1 })
    );
    assert_eq!(
        w.map_frame(&frame),
        Err(FrameError::RowLength { row: 1, expected: 2, actual: 1 })
    );
}

#[test]
fn matching_frame_passes_the_check() {
    let w = wiring(3, 2, true, WiringAxis::Rows);
    assert_eq!(w.validate_frame(&vec![vec![A, B, C], vec![D, E, F]]), Ok(()));
}

#[test]
fn empty_matrix_maps_empty_frame_to_nothing() {
    let w = wiring(0, 0, false, WiringAxis::Rows);
    let frame: Vec<Vec<Pixel>> = vec![];
    assert_eq!(w.map_frame(&frame), Ok(vec![]));
}

#[test]
fn matrix_without_width_maps_empty_rows_to_nothing() {
    let frame: Vec<Vec<Pixel>> = vec![vec![], vec![], vec![]];
    assert_eq!(wiring(0, 3, true, WiringAxis::Rows).map_frame(&frame), Ok(vec![]));
    assert_eq!(wiring(0, 3, true, WiringAxis::Columns).map_frame(&frame), Ok(vec![]));
}

#[test]
fn empty_matrix_rejects_a_frame_with_rows() {
    let w = wiring(0, 0, false, WiringAxis::Rows);
    let frame = vec![vec![A]];
    assert_eq!(w.map_frame(&frame), Err(FrameError::RowCount { expected: 0, actual: 1 }));
}

#[test]
fn index_of_follows_the_serpentine_formula() {
    let w = wiring(3, 2, true, WiringAxis::Rows);
    assert_eq!(w.index_of(0, 0), Some(0));
    assert_eq!(w.index_of(0, 2), Some(2));
    assert_eq!(w.index_of(1, 0), Some(5));
    assert_eq!(w.index_of(1, 1), Some(4));
    assert_eq!(w.index_of(1, 2), Some(3));
}

#[test]
fn index_of_follows_the_straight_formula() {
    let w = wiring(3, 2, false, WiringAxis::Rows);
    assert_eq!(w.index_of(1, 0), Some(3));
    assert_eq!(w.index_of(1, 2), Some(5));
}

#[test]
fn index_of_along_columns() {
    let w = wiring(2, 3, true, WiringAxis::Columns);
    assert_eq!(w.index_of(0, 0), Some(0));
    assert_eq!(w.index_of(2, 0), Some(2));
    assert_eq!(w.index_of(2, 1), Some(3));
    assert_eq!(w.index_of(0, 1), Some(5));
    let straight = wiring(2, 3, false, WiringAxis::Columns);
    assert_eq!(straight.index_of(0, 1), Some(3));
    assert_eq!(straight.index_of(2, 1), Some(5));
}

#[test]
fn index_of_knows_no_led_outside_the_matrix() {
    let w = wiring(3, 2, true, WiringAxis::Rows);
    assert_eq!(w.index_of(2, 0), None);
    assert_eq!(w.index_of(0, 3), None);
    assert_eq!(wiring(0, 0, false, WiringAxis::Rows).index_of(0, 0), None);
}

#[test]
fn index_of_gives_up_beyond_usize() {
    let w = wiring(usize::MAX, 3, false, WiringAxis::Rows);
    assert_eq!(w.index_of(0, 7), Some(7));
    assert_eq!(w.index_of(1, 0), Some(usize::MAX));
    assert_eq!(w.index_of(1, 1), None);
    assert_eq!(w.index_of(2, 0), None);
}

#[test]
fn position_of_inverts_the_serpentine_formula() {
    let w = wiring(3, 2, true, WiringAxis::Rows);
    assert_eq!(w.position_of(0), Some((0, 0)));
    assert_eq!(w.position_of(2), Some((0, 2)));
    assert_eq!(w.position_of(3), Some((1, 2)));
    assert_eq!(w.position_of(5), Some((1, 0)));
    assert_eq!(w.position_of(6), None);
}

#[test]
fn position_of_along_columns() {
    let w = wiring(2, 3, true, WiringAxis::Columns);
    assert_eq!(w.position_of(1), Some((1, 0)));
    assert_eq!(w.position_of(3), Some((2, 1)));
    assert_eq!(w.position_of(5), Some((0, 1)));
    assert_eq!(w.position_of(6), None);
}

#[test]
fn position_of_finds_nothing_on_an_empty_strip() {
    assert_eq!(wiring(0, 5, true, WiringAxis::Rows).position_of(0), None);
    assert_eq!(wiring(5, 0, true, WiringAxis::Rows).position_of(0), None);
    assert_eq!(wiring(0, 5, true, WiringAxis::Columns).position_of(0), None);
    assert_eq!(wiring(5, 0, true, WiringAxis::Columns).position_of(0), None);
}

#[test]
fn mapping_is_a_bijection_on_a_small_matrix() {
    for axis in [WiringAxis::Rows, WiringAxis::Columns] {
        for serpentine in [false, true] {
            let w = wiring(4, 3, serpentine, axis);
            let mut seen = vec![false; 12];
            for row in 0..3 {
                for col in 0..4 {
                    let index: usize = w.index_of(row, col).unwrap();
                    assert!(index < 12);
                    assert!(!seen[index]);
                    seen[index] = true;
                    assert_eq!(w.position_of(index), Some((row, col)));
                }
            }
            assert!(seen.iter().all(|s| *s));
        }
    }
}

#[test]
fn mapped_pixel_sits_at_its_index() {
    let frame = vec![vec![A, B, C], vec![D, E, F]];
    for axis in [WiringAxis::Rows, WiringAxis::Columns] {
        for serpentine in [false, true] {
            let w = wiring(3, 2, serpentine, axis);
            let buffer = w.map_frame(&frame).unwrap();
            assert_eq!(buffer.len(), 6);
            for row in 0..2 {
                for col in 0..3 {
                    assert_eq!(buffer[w.index_of(row, col).unwrap()], frame[row][col]);
                }
            }
        }
    }
}

#[test]
fn straight_rows_leave_reading_order_alone() {
    let w = wiring(4, 3, false, WiringAxis::Rows);
    for index in 0..12 {
        let place: usize = w.index_of(index / 4, index % 4).unwrap();
        assert_eq!(place, index);
        assert_eq!(w.index_of(place / 4, place % 4), Some(index));
    }
}

#[test]
fn row_wiring_applied_twice_is_the_identity() {
    let w = wiring(4, 3, true, WiringAxis::Rows);
    for index in 0..12 {
        let place: usize = w.index_of(index / 4, index % 4).unwrap();
        assert_eq!(w.index_of(place / 4, place % 4), Some(index));
    }
    assert_eq!(w.index_of(1, 0), Some(7));
}

#[test]
fn wiring_is_taken_from_the_configuration() {
    let config = MatrixConfiguration {
        width: 8,
        height: 4,
        target_fps_milli: 30_000,
        serpentine: true,
        magnification_milli: Some(2_500),
    };
    let w = Wiring::new(&config, WiringAxis::Columns);
    assert_eq!(w, wiring(8, 4, true, WiringAxis::Columns));
}

#[test]
fn magnification_does_not_change_the_mapping() {
    let frame = vec![vec![A, B, C], vec![D, E, F]];
    let mut config = MatrixConfiguration {
        width: 3,
        height: 2,
        target_fps_milli: 0,
        serpentine: true,
        magnification_milli: None,
    };
    let plain = Wiring::new(&config, WiringAxis::Rows).map_frame(&frame);
    config.magnification_milli = Some(4_000);
    let magnified = Wiring::new(&config, WiringAxis::Rows).map_frame(&frame);
    assert_eq!(plain, magnified);
    assert_eq!(plain, Ok(vec![A, B, C, F, E, D]));
}

#[test]
fn rows_are_the_default_axis() {
    assert_eq!(WiringAxis::default(), WiringAxis::Rows);
}
