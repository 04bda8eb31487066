use playspace::mapper;
use playspace::mapper::{grid_dimensions, WorldPoint};

fn halves(twice_x: i128, twice_y: i128) -> WorldPoint {
    WorldPoint { twice_x, twice_y }
}

#[test]
fn map_of_the_origin_cell_is_the_top_left_point() {
    let point = mapper::map((0, 0), 50, 10, 8);
    assert_eq!(point.whole(), Some((-225, 175)));
    assert_eq!(point, halves(-450, 350));
}

#[test]
fn map_of_the_far_corner_is_the_opposite_point() {
    let point = mapper::map((7, 9), 50, 10, 8);
    assert_eq!(point.whole(), Some((225, -175)));
    assert_eq!(point, halves(450, -350));
}

#[test]
fn map_moves_right_with_the_column_and_down_with_the_row() {
    assert_eq!(mapper::map((0, 1), 50, 10, 8).whole(), Some((-175, 175)));
    assert_eq!(mapper::map((1, 0), 50, 10, 8).whole(), Some((-225, 125)));
    assert_eq!(mapper::map((3, 4), 50, 10, 8).whole(), Some((-25, 25)));
    assert_eq!(mapper::map((4, 5), 50, 10, 8).whole(), Some((25, -25)));
}

#[test]
fn map_of_the_window_of_twenty_by_twelve_cells() {
    assert_eq!(mapper::map((0, 0), 50, 20, 12).whole(), Some((-475, 275)));
    assert_eq!(mapper::map((11, 19), 50, 20, 12).whole(), Some((475, -275)));
    assert_eq!(mapper::map((5, 9), 50, 20, 12).whole(), Some((-25, 25)));
}

#[test]
fn map_of_a_single_cell_is_the_origin() {
    assert_eq!(mapper::map((0, 0), 50, 1, 1), halves(0, 0));
    assert_eq!(mapper::map((0, 0), 0, 1, 1), halves(0, 0));
    assert_eq!(mapper::map((0, 0), 7, 1, 1).whole(), Some((0, 0)));
}

#[test]
fn map_of_an_odd_extent_lies_on_half_units() {
    // Two cells of side 5: the centres lie at -2.5 and 2.5.
    assert_eq!(mapper::map((0, 0), 5, 2, 2), halves(-5, 5));
    assert_eq!(mapper::map((1, 1), 5, 2, 2), halves(5, -5));
    assert_eq!(mapper::map((0, 0), 5, 2, 2).whole(), None);
    // Four columns and six rows of side 1: -1.5 and 2.5.
    assert_eq!(mapper::map((0, 0), 1, 4, 6), halves(-3, 5));
    assert_eq!(mapper::map((5, 3), 1, 4, 6), halves(3, -5));
}

#[test]
fn whole_asks_for_both_coordinates_to_be_whole() {
    // Three columns give a whole x, two rows a half y.
    assert_eq!(mapper::map((0, 0), 5, 3, 2), halves(-10, 5));
    assert_eq!(mapper::map((0, 0), 5, 3, 2).whole(), None);
    assert_eq!(mapper::map((0, 0), 5, 2, 3).whole(), None);
    assert_eq!(mapper::map((0, 0), 5, 3, 3).whole(), Some((-5, 5)));
    assert_eq!(halves(-4, 6).whole(), Some((-2, 3)));
    assert_eq!(halves(-3, 6).whole(), None);
    assert_eq!(halves(4, -7).whole(), None);
    assert_eq!(halves(0, 0).whole(), Some((0, 0)));
}

#[test]
fn map_takes_positions_outside_the_grid() {
    assert_eq!(mapper::map((0, 20), 50, 10, 8).whole(), Some((775, 175)));
    assert_eq!(mapper::map((100, 0), 50, 10, 8).whole(), Some((-225, -4825)));
}

#[test]
fn map_with_a_cell_size_of_zero_is_the_origin() {
    assert_eq!(mapper::map((3, 4), 0, 10, 8), halves(0, 0));
}

#[test]
fn map_of_the_largest_inputs_does_not_overflow() {
    let size = u32::MAX as i128;
    let most = usize::MAX as i128;
    let extent = most * size - size;
    assert_eq!(
        mapper::map((usize::MAX, usize::MAX), u32::MAX, usize::MAX, usize::MAX),
        halves(2 * most * size - extent, extent - 2 * most * size)
    );
    assert_eq!(mapper::map((0, 0), u32::MAX, usize::MAX, usize::MAX), halves(-extent, extent));
}

#[test]
fn map_is_centred_on_the_origin_for_every_grid() {
    for height in 1..7usize {
        for width in 1..7usize {
            for cell_size in 0..6u32 {
                let first = mapper::map((0, 0), cell_size, width, height);
                let last = mapper::map((height - 1, width - 1), cell_size, width, height);
                assert_eq!(first.twice_x + last.twice_x, 0);
                assert_eq!(first.twice_y + last.twice_y, 0);
                for row in 0..height {
                    for col in 0..width {
                        let here = mapper::map((row, col), cell_size, width, height);
                        let opposite = (height - 1 - row, width - 1 - col);
                        let there = mapper::map(opposite, cell_size, width, height);
                        assert_eq!(here.twice_x + there.twice_x, 0);
                        assert_eq!(here.twice_y + there.twice_y, 0);
                    }
                }
            }
        }
    }
}

#[test]
fn map_steps_by_one_cell_size() {
    for cell_size in [1u32, 5, 50] {
        for row in 0..5usize {
            for col in 0..5usize {
                let here = mapper::map((row, col), cell_size, 4, 3);
                let right = mapper::map((row, col + 1), cell_size, 4, 3);
                let down = mapper::map((row + 1, col), cell_size, 4, 3);
                assert_eq!(right.twice_x - here.twice_x, 2 * cell_size as i128);
                assert_eq!(right.twice_y, here.twice_y);
                assert_eq!(here.twice_y - down.twice_y, 2 * cell_size as i128);
                assert_eq!(down.twice_x, here.twice_x);
            }
        }
    }
}

#[test]
fn grid_dimensions_of_the_window() {
    assert_eq!(grid_dimensions(1000, 600, 50), (12, 20));
    assert_eq!(grid_dimensions(500, 400, 50), (8, 10));
    assert_eq!(grid_dimensions(0, 0, 7), (0, 0));
    assert_eq!(grid_dimensions(u32::MAX, u32::MAX, 1), (u32::MAX as usize, u32::MAX as usize));
}
