use stack_game::block::GridBlock;
use stack_game::config::{GAME_WIDTH, PLATFORM_BLOCKS};
use stack_game::tower::TowerGrid;

fn live_tower() -> TowerGrid {
    let mut tower = TowerGrid::new();
    tower.add_base_row();
    tower.add_new_row(0);
    tower
}

fn columns(tower: &TowerGrid, row: usize, pick: fn(&GridBlock) -> bool) -> Vec<usize> {
    (0..GAME_WIDTH).filter(|&col| pick(&tower.block(row, col))).collect()
}

fn active(block: &GridBlock) -> bool {
    block.active
}

fn landed(block: &GridBlock) -> bool {
    block.landed
}

fn falling(block: &GridBlock) -> bool {
    block.falling
}

#[test]
fn new_tower_has_no_rows_and_a_centred_platform() {
    let tower = TowerGrid::new();
    assert_eq!(tower.row_count(), 0);
    assert_eq!(tower.platform_width(), PLATFORM_BLOCKS);
    assert_eq!(tower.platform_position(), 5);
    assert_eq!(tower.moving_platform_pos(), 5);
    assert_eq!(tower.current_row(), 0);
    assert!(tower.rows().is_empty());
}

#[test]
fn base_row_is_landed_over_the_target_span() {
    let mut tower = TowerGrid::new();
    tower.add_base_row();
    assert_eq!(tower.row_count(), 1);
    assert_eq!(columns(&tower, 0, active), vec![5, 6, 7, 8, 9]);
    assert_eq!(columns(&tower, 0, landed), vec![5, 6, 7, 8, 9]);
    assert_eq!(columns(&tower, 0, falling), Vec::<usize>::new());
    assert!((0..GAME_WIDTH).all(|col| tower.block(0, col).level == 0));
}

#[test]
fn new_row_slides_right_above_the_base() {
    let mut tower = TowerGrid::new();
    tower.add_base_row();
    tower.add_new_row(3);
    assert_eq!(tower.row_count(), 2);
    assert_eq!(columns(&tower, 1, active), vec![5, 6, 7, 8, 9]);
    assert_eq!(columns(&tower, 1, landed), Vec::<usize>::new());
    assert!((0..GAME_WIDTH).all(|col| tower.block(1, col).level == 3));
    assert_eq!(columns(&tower, 0, landed), vec![5, 6, 7, 8, 9]);
}

#[test]
fn rows_reports_every_cell() {
    let tower = live_tower();
    let rows = tower.rows();
    assert_eq!(rows.len(), 2);
    for row in 0..2 {
        assert_eq!(rows[row].len(), GAME_WIDTH);
        for col in 0..GAME_WIDTH {
            assert_eq!(rows[row][col], tower.block(row, col));
        }
    }
}

#[test]
fn shifting_right_gives_up_the_left_cell_and_takes_the_next() {
    let mut tower = live_tower();
    tower.shift_platform(true);
    assert_eq!(tower.moving_platform_pos(), 6);
    assert_eq!(columns(&tower, 1, active), vec![6, 7, 8, 9, 10]);
    assert_eq!(columns(&tower, 0, active), vec![5, 6, 7, 8, 9]);
    assert_eq!(tower.platform_position(), 5);
    assert_eq!(tower.platform_width(), 5);
}

#[test]
fn shifting_left_gives_up_the_right_cell_and_takes_the_next() {
    let mut tower = live_tower();
    tower.shift_platform(false);
    assert_eq!(tower.moving_platform_pos(), 4);
    assert_eq!(columns(&tower, 1, active), vec![4, 5, 6, 7, 8]);
    assert_eq!(columns(&tower, 0, active), vec![5, 6, 7, 8, 9]);
}

#[test]
fn platform_can_reach_both_edges() {
    let mut tower = live_tower();
    for _ in 0..5 {
        tower.shift_platform(true);
    }
    assert_eq!(tower.moving_platform_pos(), 10);
    assert_eq!(columns(&tower, 1, active), vec![10, 11, 12, 13, 14]);
    for _ in 0..10 {
        tower.shift_platform(false);
    }
    assert_eq!(tower.moving_platform_pos(), 0);
    assert_eq!(columns(&tower, 1, active), vec![0, 1, 2, 3, 4]);
}

#[test]
fn landing_two_columns_off_keeps_three() {
    let mut tower = live_tower();
    tower.shift_platform(true);
    tower.shift_platform(true);
    assert_eq!(columns(&tower, 1, active), vec![7, 8, 9, 10, 11]);
    assert!(tower.check_landing());
    assert_eq!(tower.platform_width(), 3);
    assert_eq!(tower.platform_position(), 6);
    assert_eq!(tower.moving_platform_pos(), 6);
    assert_eq!(tower.current_row(), 1);
    assert_eq!(tower.row_count(), 2);
    assert_eq!(columns(&tower, 1, landed), vec![7, 8, 9]);
    assert_eq!(columns(&tower, 1, falling), vec![10, 11]);
    assert!((0..GAME_WIDTH).all(|col| tower.block(1, col).fall_offset == 0));
}

#[test]
fn landing_to_the_left_cuts_the_left_overhang() {
    let mut tower = live_tower();
    tower.shift_platform(false);
    assert!(tower.check_landing());
    assert_eq!(tower.platform_width(), 4);
    assert_eq!(tower.platform_position(), 5);
    assert_eq!(columns(&tower, 1, landed), vec![5, 6, 7, 8]);
    assert_eq!(columns(&tower, 1, falling), vec![4]);
}

#[test]
fn landed_width_is_the_number_of_cells_over_the_span() {
    for shift in 0..=5usize {
        for right in [true, false] {
            let mut tower = live_tower();
            for _ in 0..shift {
                tower.shift_platform(right);
            }
            let over_span = (5..10).filter(|&col| tower.block(1, col).active).count();
            let landed = tower.check_landing();
            assert_eq!(landed, over_span > 0);
            if landed {
                assert_eq!(tower.platform_width(), over_span);
                assert_eq!(tower.platform_position(), (GAME_WIDTH - over_span) / 2);
                assert_eq!(tower.moving_platform_pos(), tower.platform_position());
            } else {
                assert_eq!(tower.platform_width(), 5);
                assert_eq!(tower.platform_position(), 5);
            }
        }
    }
}

#[test]
fn perfect_landing_changes_neither_width_nor_place() {
    let mut tower = live_tower();
    assert!(tower.check_landing());
    assert_eq!(tower.platform_width(), 5);
    assert_eq!(tower.platform_position(), 5);
    assert_eq!(tower.moving_platform_pos(), 5);
    assert_eq!(columns(&tower, 1, landed), vec![5, 6, 7, 8, 9]);
    assert_eq!(columns(&tower, 1, falling), Vec::<usize>::new());
    tower.add_new_row(0);
    assert!(tower.check_landing());
    assert_eq!(tower.platform_width(), 5);
    assert_eq!(tower.platform_position(), 5);
    assert_eq!(tower.current_row(), 2);
}

#[test]
fn total_miss_lands_nothing_and_adds_no_row() {
    let mut tower = live_tower();
    for _ in 0..5 {
        tower.shift_platform(true);
    }
    let rows_before = tower.row_count();
    assert!(!tower.check_landing());
    assert_eq!(tower.row_count(), rows_before);
    assert_eq!(tower.platform_width(), 5);
    assert_eq!(tower.platform_position(), 5);
    assert_eq!(tower.moving_platform_pos(), 10);
    assert_eq!(tower.current_row(), 0);
    assert_eq!(columns(&tower, 1, landed), Vec::<usize>::new());
    assert_eq!(columns(&tower, 1, falling), vec![10, 11, 12, 13, 14]);
}

#[test]
fn miss_of_a_narrow_platform_at_the_right_edge() {
    let mut tower = live_tower();
    tower.shift_platform(true);
    tower.shift_platform(true);
    assert!(tower.check_landing());
    tower.add_new_row(0);
    assert_eq!(columns(&tower, 2, active), vec![6, 7, 8]);
    for _ in 0..6 {
        tower.shift_platform(true);
    }
    assert_eq!(columns(&tower, 2, active), vec![12, 13, 14]);
    assert!(!tower.check_landing());
    assert_eq!(tower.row_count(), 3);
    assert_eq!(tower.platform_width(), 3);
    assert_eq!(tower.platform_position(), 6);
    assert_eq!(columns(&tower, 2, falling), vec![12, 13, 14]);
}

#[test]
fn width_one_recentres_to_column_seven() {
    let mut tower = live_tower();
    for _ in 0..4 {
        tower.shift_platform(true);
    }
    assert!(tower.check_landing());
    assert_eq!(tower.platform_width(), 1);
    assert_eq!(tower.platform_position(), 7);
    tower.add_new_row(1);
    assert_eq!(columns(&tower, 2, active), vec![7]);
    tower.shift_platform(true);
    assert_eq!(columns(&tower, 2, active), vec![8]);
    assert!(!tower.check_landing());
    assert_eq!(columns(&tower, 2, falling), vec![8]);
}

#[test]
fn even_width_sits_half_a_column_left_of_the_middle() {
    let mut tower = live_tower();
    tower.shift_platform(true);
    assert!(tower.check_landing());
    assert_eq!(tower.platform_width(), 4);
    assert_eq!(tower.platform_position(), 5);
    tower.add_new_row(0);
    tower.shift_platform(false);
    tower.shift_platform(false);
    assert!(tower.check_landing());
    assert_eq!(tower.platform_width(), 2);
    assert_eq!(tower.platform_position(), 6);
}

#[test]
fn time_moves_the_falling_cells_of_the_top_row_only() {
    let mut tower = live_tower();
    tower.shift_platform(true);
    assert!(tower.check_landing());
    tower.advance_falling(1_000);
    assert_eq!(tower.block(1, 10).fall_offset, 500_000);
    assert_eq!(tower.block(1, 9).fall_offset, 0);
    tower.add_new_row(0);
    tower.advance_falling(1_000);
    assert_eq!(tower.block(1, 10).fall_offset, 500_000);
    assert!((0..GAME_WIDTH).all(|col| tower.block(2, col).fall_offset == 0));
}

#[test]
fn time_does_nothing_to_a_tower_without_rows() {
    let mut tower = TowerGrid::new();
    tower.advance_falling(5);
    assert_eq!(tower.row_count(), 0);
}

#[test]
fn reset_takes_the_rows_away() {
    let mut tower = live_tower();
    tower.shift_platform(true);
    tower.shift_platform(true);
    assert!(tower.check_landing());
    tower.reset();
    assert_eq!(tower.row_count(), 0);
    assert_eq!(tower.platform_width(), 5);
    assert_eq!(tower.platform_position(), 5);
    assert_eq!(tower.moving_platform_pos(), 5);
    assert_eq!(tower.current_row(), 0);
}
