use stack_game::block::GridBlock;
use stack_game::config::GAME_WIDTH;
use stack_game::fall::{advance_fall, advance_offset};
use stack_game::row::{freeze_row, new_platform_row};

fn empty(level: i32) -> GridBlock {
    GridBlock { active: false, landed: false, level, falling: false, fall_offset: 0 }
}

fn sliding(level: i32) -> GridBlock {
    GridBlock { active: true, ..empty(level) }
}

fn landed(level: i32) -> GridBlock {
    GridBlock { active: true, landed: true, ..empty(level) }
}

fn falling(level: i32, fall_offset: u64) -> GridBlock {
    GridBlock { active: true, falling: true, fall_offset, ..empty(level) }
}

#[test]
fn base_row_holds_a_landed_platform() {
    let row = new_platform_row(5, 5, true, 0);
    assert_eq!(row.len(), GAME_WIDTH);
    for col in 0..GAME_WIDTH {
        let expected = if (5..10).contains(&col) { landed(0) } else { empty(0) };
        assert_eq!(row[col], expected, "column {}", col);
    }
}

#[test]
fn new_row_holds_a_sliding_platform_tagged_with_its_level() {
    let row = new_platform_row(6, 3, false, 4);
    assert_eq!(row.len(), GAME_WIDTH);
    for col in 0..GAME_WIDTH {
        let expected = if (6..9).contains(&col) { sliding(4) } else { empty(4) };
        assert_eq!(row[col], expected, "column {}", col);
    }
}

#[test]
fn platform_row_is_cut_at_the_edge_of_the_field() {
    let row = new_platform_row(13, 5, false, 0);
    assert_eq!(row.len(), GAME_WIDTH);
    let active: Vec<usize> = (0..GAME_WIDTH).filter(|&col| row[col].active).collect();
    assert_eq!(active, vec![13, 14]);
}

#[test]
fn platform_row_of_no_width_is_empty() {
    let row = new_platform_row(4, 0, true, 2);
    assert!(row.iter().all(|block| *block == empty(2)));
}

#[test]
fn freeze_lands_what_is_inside_and_drops_what_is_outside() {
    let mut row = new_platform_row(7, 5, false, 0);
    let count = freeze_row(&mut row, 5, 5);
    assert_eq!(count, 3);
    for col in 0..GAME_WIDTH {
        let expected = match col {
            7..=9 => landed(0),
            10..=11 => falling(0, 0),
            _ => empty(0),
        };
        assert_eq!(row[col], expected, "column {}", col);
    }
}

#[test]
fn freeze_clear_of_the_span_drops_everything() {
    let mut row = new_platform_row(12, 3, false, 1);
    let count = freeze_row(&mut row, 6, 3);
    assert_eq!(count, 0);
    for col in 0..GAME_WIDTH {
        let expected = if (12..15).contains(&col) { falling(1, 0) } else { empty(1) };
        assert_eq!(row[col], expected, "column {}", col);
    }
}

#[test]
fn freeze_counts_exactly_the_occupied_cells_in_the_span() {
    for start in 0..=10usize {
        let mut row = new_platform_row(start, 5, false, 0);
        let occupied = (5..10).filter(|&col| row[col].active).count();
        assert_eq!(freeze_row(&mut row, 5, 5), occupied, "platform at {}", start);
    }
}

#[test]
fn freeze_leaves_landed_cells_outside_the_span_alone() {
    let mut row = vec![landed(0), sliding(0), empty(0)];
    let count = freeze_row(&mut row, 2, 1);
    assert_eq!(count, 0);
    assert_eq!(row, vec![landed(0), falling(0, 0), empty(0)]);
}

#[test]
fn freeze_resets_the_offset_of_what_starts_to_fall() {
    let mut row = vec![GridBlock { fall_offset: 9, ..sliding(0) }];
    freeze_row(&mut row, 5, 1);
    assert_eq!(row, vec![falling(0, 0)]);
}

#[test]
fn freeze_of_an_empty_row_counts_nothing() {
    let mut row: Vec<GridBlock> = Vec::new();
    assert_eq!(freeze_row(&mut row, 0, 5), 0);
    assert!(row.is_empty());
}

#[test]
fn falling_offset_grows_by_the_speed_for_each_nanosecond() {
    assert_eq!(advance_offset(0, 1), 500);
    assert_eq!(advance_offset(1_000, 16_000_000), 8_000_001_000);
    assert_eq!(advance_offset(42, 0), 42);
}

#[test]
fn falling_offset_stops_at_the_largest_value() {
    assert_eq!(advance_offset(u64::MAX - 499, 1), u64::MAX);
    assert_eq!(advance_offset(u64::MAX - 500, 1), u64::MAX);
    assert_eq!(advance_offset(u64::MAX - 501, 1), u64::MAX - 1);
    assert_eq!(advance_offset(0, u64::MAX), u64::MAX);
    assert_eq!(advance_offset(u64::MAX, u64::MAX), u64::MAX);
}

#[test]
fn only_falling_cells_fall() {
    let mut row = vec![empty(0), sliding(1), landed(2), falling(3, 0), falling(3, 250)];
    advance_fall(&mut row, 2);
    assert_eq!(row, vec![empty(0), sliding(1), landed(2), falling(3, 1000), falling(3, 1250)]);
    advance_fall(&mut row, 1_000_000_000);
    assert_eq!(row[3], falling(3, 500_000_001_000));
    assert_eq!(row[4], falling(3, 500_000_001_250));
    assert_eq!(row[1], sliding(1));
}
