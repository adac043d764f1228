use cpu_gauges::grid::{
    cell_percent, cell_position, is_valid_index, linear_index, plan, row_count, ConfigError,
    GridSpec,
};
use cpu_gauges::ratio::{clamp_ratio, FULL_SCALE};

#[test]
fn twenty_four_cores_five_wide_take_five_rows() {
    assert_eq!(row_count(24, 5), 5);
    let g = plan(24, 5, 0).unwrap();
    assert_eq!(
        g,
        GridSpec {
            row_count: 5,
            columns_per_row: 5,
            extra_rows: 0,
            cell_width_percent: 20,
            cell_height_percent: 20,
        }
    );
}

#[test]
fn fewer_cores_than_width_take_one_row() {
    assert_eq!(row_count(4, 5), 1);
    assert_eq!(row_count(0, 5), 1);
    assert_eq!(row_count(1, 1), 1);
}

#[test]
fn exact_multiple_adds_no_spare_row() {
    assert_eq!(row_count(20, 5), 4);
    assert_eq!(row_count(21, 5), 5);
    assert_eq!(row_count(5, 5), 1);
}

#[test]
fn rows_always_cover_cores() {
    for cores in 1usize..200 {
        for width in 1usize..20 {
            assert!(row_count(cores, width) * width >= cores);
        }
    }
}

#[test]
fn cell_percent_truncates() {
    assert_eq!(cell_percent(1), 100);
    assert_eq!(cell_percent(3), 33);
    assert_eq!(cell_percent(7), 14);
    assert_eq!(cell_percent(100), 1);
    assert_eq!(cell_percent(101), 0);
}

#[test]
fn temperature_row_shrinks_row_height() {
    let g = plan(4, 5, 1).unwrap();
    assert_eq!(g.row_count, 1);
    assert_eq!(g.extra_rows, 1);
    assert_eq!(g.cell_height_percent, 50);
    assert_eq!(g.cell_width_percent, 20);
}

#[test]
fn zero_width_is_refused() {
    assert_eq!(plan(8, 0, 0), Err(ConfigError::ZeroWidth));
}

#[test]
fn planning_twice_gives_the_same_grid() {
    assert_eq!(plan(24, 5, 1), plan(24, 5, 1));
    assert_eq!(plan(7, 3, 0), plan(7, 3, 0));
}

#[test]
fn index_and_position_round_trip() {
    let width: usize = 5;
    let rows = row_count(24, width);
    for row in 0..rows {
        for col in 0..width {
            let i = linear_index(row, col, width);
            assert_eq!(cell_position(i, width), (row, col));
        }
    }
    assert_eq!(linear_index(2, 3, 5), 13);
    assert_eq!(cell_position(13, 5), (2, 3));
}

#[test]
fn valid_index_is_below_core_count() {
    assert!(is_valid_index(3, 4));
    assert!(!is_valid_index(4, 4));
    assert!(!is_valid_index(0, 0));
}

#[test]
fn ratio_above_one_clamps_to_one() {
    assert_eq!(clamp_ratio(13700), FULL_SCALE);
}

#[test]
fn ratio_in_range_is_kept_and_negative_clamps_to_zero() {
    assert_eq!(clamp_ratio(0), 0);
    assert_eq!(clamp_ratio(4250), 4250);
    assert_eq!(clamp_ratio(10000), 10000);
    assert_eq!(clamp_ratio(-1), 0);
    assert_eq!(clamp_ratio(i64::MIN), 0);
    assert_eq!(clamp_ratio(i64::MAX), 10000);
}
