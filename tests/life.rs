use game_of_life::app::{Advance, App, FrameCounter, Key, DEFAULT_MAX_UPDATE_PER_SECOND};
use game_of_life::grid::{initialize_empty_game_table, initialize_game_table, GameTable};

fn table_with(height: usize, width: usize, live: &[(usize, usize)]) -> GameTable {
    let mut t = initialize_empty_game_table((height, width));
    for &(r, c) in live {
        t[r][c] = true;
    }
    t
}

fn live_cells(t: &GameTable) -> Vec<(usize, usize)> {
    let mut out = Vec::new();
    for (r, row) in t.iter().enumerate() {
        for (c, &cell) in row.iter().enumerate() {
            if cell {
                out.push((r, c));
            }
        }
    }
    out
}

fn app_with(height: usize, width: usize, live: &[(usize, usize)]) -> App {
    App::from_game_table((height, width), table_with(height, width, live))
}

#[test]
fn empty_table_has_requested_shape() {
    let t = initialize_empty_game_table((3, 5));
    assert_eq!(t.len(), 3);
    assert!(t.iter().all(|row| row.len() == 5 && row.iter().all(|&c| !c)));
    assert!(initialize_empty_game_table((0, 4)).is_empty());
    let t = initialize_empty_game_table((2, 0));
    assert_eq!(t.len(), 2);
    assert!(t.iter().all(|row| row.is_empty()));
}

#[test]
fn random_table_has_requested_shape() {
    let t = initialize_game_table((7, 11));
    assert_eq!(t.len(), 7);
    assert!(t.iter().all(|row| row.len() == 11));
    let app = App::new((4, 6));
    assert_eq!(app.game_table.len(), 4);
    assert!(app.game_table.iter().all(|row| row.len() == 6));
    assert_eq!(app.update_per_second_max, DEFAULT_MAX_UPDATE_PER_SECOND);
    assert!(!app.game_pause && !app.exit && !app.step_by_step_next);
    assert_eq!(app.game_table_user_cursor, (0, 0));
}

#[test]
fn random_table_is_not_constant() {
    let t = initialize_game_table((32, 32));
    let live = t.iter().flatten().filter(|&&c| c).count();
    assert!(live > 0 && live < 32 * 32);
}

#[test]
fn corner_counts_opposite_corner_as_neighbour() {
    let app = app_with(3, 3, &[(0, 0)]);
    assert_eq!(app.count_number_of_neighbour(&app.game_table, 2, 2), 1);
    assert_eq!(app.count_number_of_neighbour(&app.game_table, 0, 2), 1);
    assert_eq!(app.count_number_of_neighbour(&app.game_table, 2, 0), 1);
    assert_eq!(app.count_number_of_neighbour(&app.game_table, 0, 0), 0);
}

#[test]
fn first_row_sees_last_row() {
    let app = app_with(5, 6, &[(4, 2)]);
    assert_eq!(app.count_number_of_neighbour(&app.game_table, 0, 2), 1);
    assert_eq!(app.count_number_of_neighbour(&app.game_table, 0, 1), 1);
    assert_eq!(app.count_number_of_neighbour(&app.game_table, 0, 3), 1);
    assert_eq!(app.count_number_of_neighbour(&app.game_table, 1, 2), 0);
    let app = app_with(5, 6, &[(3, 5)]);
    assert_eq!(app.count_number_of_neighbour(&app.game_table, 3, 0), 1);
    assert_eq!(app.count_number_of_neighbour(&app.game_table, 2, 0), 1);
}

#[test]
fn full_neighbourhood_counts_eight() {
    let mut live = Vec::new();
    for r in 0..4 {
        for c in 0..4 {
            live.push((r, c));
        }
    }
    let app = app_with(4, 4, &live);
    assert_eq!(app.count_number_of_neighbour(&app.game_table, 1, 1), 8);
    assert_eq!(app.count_number_of_neighbour(&app.game_table, 0, 0), 8);
}

#[test]
fn single_cell_grid_counts_itself_eight_times() {
    let app = app_with(1, 1, &[(0, 0)]);
    assert_eq!(app.count_number_of_neighbour(&app.game_table, 0, 0), 8);
}

#[test]
fn next_generation_keeps_dimensions() {
    for &(h, w) in &[(0usize, 0usize), (0, 3), (3, 0), (1, 1), (4, 7), (9, 2)] {
        let app = App::from_game_table((h, w), initialize_game_table((h, w)));
        let next = app.update_game_table(app.game_table.clone());
        assert_eq!(next.len(), h);
        assert!(next.iter().all(|row| row.len() == w));
    }
}

#[test]
fn empty_grid_stays_empty() {
    let app = app_with(6, 8, &[]);
    let next = app.update_game_table(app.game_table.clone());
    assert!(live_cells(&next).is_empty());
}

#[test]
fn lonely_cell_dies() {
    let app = app_with(5, 5, &[(2, 2)]);
    assert!(live_cells(&app.update_game_table(app.game_table.clone())).is_empty());
    let app = app_with(5, 5, &[(2, 2), (2, 3)]);
    assert!(live_cells(&app.update_game_table(app.game_table.clone())).is_empty());
}

#[test]
fn block_survives() {
    let block = [(1, 1), (1, 2), (2, 1), (2, 2)];
    let app = app_with(6, 6, &block);
    let next = app.update_game_table(app.game_table.clone());
    assert_eq!(live_cells(&next), block.to_vec());
}

#[test]
fn crowded_cell_dies_and_three_give_birth() {
    // The centre has four live neighbours and dies; (0, 2) is dead with
    // exactly three live neighbours and comes alive.
    let app = app_with(7, 7, &[(2, 2), (1, 1), (1, 3), (3, 1), (3, 3)]);
    let next = app.update_game_table(app.game_table.clone());
    assert!(!next[2][2]);
    assert!(next[1][2] && next[2][1] && next[2][3] && next[3][2]);
    let app = app_with(7, 7, &[(1, 1), (1, 2), (1, 3)]);
    let next = app.update_game_table(app.game_table.clone());
    assert!(next[0][2] && next[2][2]);
    assert!(!next[0][1] && !next[0][3]);
}

#[test]
fn blinker_oscillates() {
    let horizontal = vec![(2, 1), (2, 2), (2, 3)];
    let vertical = vec![(1, 2), (2, 2), (3, 2)];
    let app = app_with(5, 5, &horizontal);
    let first = app.update_game_table(app.game_table.clone());
    assert_eq!(live_cells(&first), vertical);
    let second = app.update_game_table(first);
    assert_eq!(live_cells(&second), horizontal);
}

#[test]
fn blinker_across_the_edge_oscillates() {
    let horizontal = vec![(0, 0), (0, 1), (0, 5)];
    let vertical = vec![(0, 0), (1, 0), (4, 0)];
    let app = app_with(5, 6, &horizontal);
    let first = app.update_game_table(app.game_table.clone());
    assert_eq!(live_cells(&first), vertical);
    let second = app.update_game_table(first);
    assert_eq!(live_cells(&second), horizontal);
}

#[test]
fn rate_never_drops_below_one() {
    let mut app = app_with(3, 3, &[]);
    app.decrease_update_per_second_max(1);
    assert_eq!(app.update_per_second_max, 9);
    app.decrease_update_per_second_max(5);
    assert_eq!(app.update_per_second_max, 4);
    app.decrease_update_per_second_max(4);
    assert_eq!(app.update_per_second_max, 4);
    app.decrease_update_per_second_max(3);
    assert_eq!(app.update_per_second_max, 1);
    app.decrease_update_per_second_max(1);
    assert_eq!(app.update_per_second_max, 1);
}

#[test]
fn rate_increase_and_reset() {
    let mut app = app_with(3, 3, &[]);
    app.increase_update_per_second_max(1);
    assert_eq!(app.update_per_second_max, 11);
    app.increase_update_per_second_max(30);
    assert_eq!(app.update_per_second_max, 41);
    app.reset_update_per_second_max();
    assert_eq!(app.update_per_second_max, 10);
}

#[test]
fn rate_key_stops_at_largest_rate() {
    let mut app = app_with(3, 3, &[]);
    app.update_per_second_max = u16::MAX - 1;
    app.handle_key_event(Key::Char('d'));
    assert_eq!(app.update_per_second_max, u16::MAX);
    app.handle_key_event(Key::Char('d'));
    assert_eq!(app.update_per_second_max, u16::MAX);
}

#[test]
fn cursor_wraps_on_columns() {
    let mut app = app_with(4, 6, &[]);
    app.game_table_user_cursor_move_left();
    assert_eq!(app.game_table_user_cursor, (0, 5));
    app.game_table_user_cursor_move_right();
    assert_eq!(app.game_table_user_cursor, (0, 0));
    app.game_table_user_cursor_move_right();
    assert_eq!(app.game_table_user_cursor, (0, 1));
    app.game_table_user_cursor_move_left();
    assert_eq!(app.game_table_user_cursor, (0, 0));
}

#[test]
fn cursor_wraps_on_rows() {
    let mut app = app_with(4, 6, &[]);
    app.game_table_user_cursor_move_up();
    assert_eq!(app.game_table_user_cursor, (3, 0));
    app.game_table_user_cursor_move_down();
    assert_eq!(app.game_table_user_cursor, (0, 0));
    app.game_table_user_cursor_move_down();
    app.game_table_user_cursor_move_down();
    assert_eq!(app.game_table_user_cursor, (2, 0));
}

#[test]
fn cursor_stays_on_empty_grid() {
    let mut app = app_with(0, 0, &[]);
    app.game_table_user_cursor_move_left();
    app.game_table_user_cursor_move_up();
    app.game_table_user_cursor_move_right();
    app.game_table_user_cursor_move_down();
    assert_eq!(app.game_table_user_cursor, (0, 0));
    app.toggle_game_pause();
    app.switch_cell_state();
    assert!(app.game_table.is_empty());
}

#[test]
fn switch_only_while_paused() {
    let mut app = app_with(3, 4, &[(0, 0)]);
    app.game_table_user_cursor_move_down();
    app.game_table_user_cursor_move_right();
    app.switch_cell_state();
    assert_eq!(live_cells(&app.game_table), vec![(0, 0)]);
    app.toggle_game_pause();
    app.switch_cell_state();
    assert_eq!(live_cells(&app.game_table), vec![(0, 0), (1, 1)]);
    app.switch_cell_state();
    assert_eq!(live_cells(&app.game_table), vec![(0, 0)]);
}

#[test]
fn pause_toggle_twice_restores_running() {
    let mut app = app_with(2, 2, &[]);
    app.toggle_game_pause();
    assert!(app.game_pause);
    app.toggle_game_pause();
    assert!(!app.game_pause);
}

#[test]
fn single_step_advances_once() {
    let mut app = app_with(5, 5, &[(2, 1), (2, 2), (2, 3)]);
    app.toggle_step_by_step();
    assert!(app.game_pause && app.step_by_step_next);
    assert_eq!(app.advance(0), Advance::Stepped);
    assert!(!app.step_by_step_next && app.game_pause);
    assert_eq!(live_cells(&app.game_table), vec![(1, 2), (2, 2), (3, 2)]);
    assert_eq!(app.advance(5_000_000_000), Advance::Idle);
    assert_eq!(live_cells(&app.game_table), vec![(1, 2), (2, 2), (3, 2)]);
}

#[test]
fn running_clock_waits_for_interval() {
    let mut app = app_with(5, 5, &[(2, 1), (2, 2), (2, 3)]);
    assert_eq!(app.advance(99_999_999), Advance::Idle);
    assert_eq!(live_cells(&app.game_table), vec![(2, 1), (2, 2), (2, 3)]);
    assert_eq!(app.advance(100_000_000), Advance::Scheduled);
    assert_eq!(live_cells(&app.game_table), vec![(1, 2), (2, 2), (3, 2)]);
    assert_eq!(app.advance(u64::MAX), Advance::Scheduled);
    assert_eq!(live_cells(&app.game_table), vec![(2, 1), (2, 2), (2, 3)]);
    app.update_per_second_max = 3;
    assert_eq!(app.advance(333_333_333), Advance::Idle);
    assert_eq!(app.advance(333_333_334), Advance::Scheduled);
}

#[test]
fn paused_clock_without_request_is_idle() {
    let mut app = app_with(5, 5, &[(2, 1), (2, 2), (2, 3)]);
    app.toggle_game_pause();
    assert_eq!(app.advance(u64::MAX), Advance::Idle);
    assert_eq!(live_cells(&app.game_table), vec![(2, 1), (2, 2), (2, 3)]);
}

#[test]
fn keys_dispatch_commands() {
    let mut app = app_with(3, 3, &[(1, 1)]);
    app.handle_key_event(Key::Char('x'));
    app.handle_key_event(Key::Other);
    assert!(!app.exit && !app.game_pause);
    app.handle_key_event(Key::Char(' '));
    assert!(app.game_pause);
    app.handle_key_event(Key::Down);
    app.handle_key_event(Key::Right);
    assert_eq!(app.game_table_user_cursor, (1, 1));
    app.handle_key_event(Key::Up);
    app.handle_key_event(Key::Left);
    app.handle_key_event(Key::Left);
    assert_eq!(app.game_table_user_cursor, (0, 2));
    app.handle_key_event(Key::Char('s'));
    assert_eq!(live_cells(&app.game_table), vec![(0, 2), (1, 1)]);
    app.handle_key_event(Key::Char('a'));
    assert_eq!(app.update_per_second_max, 9);
    app.handle_key_event(Key::Char('d'));
    app.handle_key_event(Key::Char('d'));
    assert_eq!(app.update_per_second_max, 11);
    app.handle_key_event(Key::Char('r'));
    assert_eq!(app.update_per_second_max, 10);
    app.handle_key_event(Key::Char('n'));
    assert!(live_cells(&app.game_table).is_empty());
    assert_eq!(app.game_table.len(), 3);
    app.handle_key_event(Key::Char(' '));
    app.handle_key_event(Key::Char('t'));
    assert!(app.game_pause && app.step_by_step_next);
    app.handle_key_event(Key::Char('q'));
    assert!(app.exit);
}

#[test]
fn reset_and_exit() {
    let mut app = app_with(2, 3, &[(0, 0), (1, 2)]);
    app.reset_game_table();
    assert_eq!(app.game_table, initialize_empty_game_table((2, 3)));
    assert!(!app.exit);
    app.exit();
    assert!(app.exit);
}

#[test]
fn frame_counter_reports_each_second() {
    let mut f = FrameCounter::new();
    f.count_update();
    f.count_update();
    assert!(!f.count_frame(10));
    assert!(!f.count_frame(500_000_000));
    assert_eq!((f.fps, f.update_par_second_real), (0, 0));
    assert!(f.count_frame(1_000_000_000));
    assert_eq!((f.fps, f.update_par_second_real), (3, 2));
    assert_eq!((f.frame_count, f.update_per_second_count), (0, 0));
    assert!(!f.count_frame(1));
    assert_eq!((f.fps, f.frame_count), (3, 1));
}

#[test]
fn frame_counter_saturates() {
    let mut f = FrameCounter::new();
    f.update_per_second_count = u16::MAX;
    f.count_update();
    assert_eq!(f.update_per_second_count, u16::MAX);
    f.frame_count = u32::MAX;
    assert!(!f.count_frame(0));
    assert_eq!(f.frame_count, u32::MAX);
}
