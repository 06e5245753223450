use tetris_core::board::Board;
use tetris_core::game::{Event, Game, Snapshot};
use tetris_core::piece::{Color, PieceData, Point, PieceType};
use tetris_core::{BOARD_HEIGHT, BOARD_WIDTH};

fn pt(x: i32, y: i32) -> Point {
    Point { x, y }
}

fn fill_cell(board: &mut Board, x: i32, y: i32, color: Color) {
    board.lock(PieceData(pt(x, y), pt(x, y), pt(x, y), pt(x, y)), color);
}

fn cells_of(s: &Snapshot) -> [Point; 4] {
    [s.piece_cells.0, s.piece_cells.1, s.piece_cells.2, s.piece_cells.3]
}

fn grids_equal(a: &Snapshot, b: &Snapshot) -> bool {
    a.grid == b.grid
}

/// A board whose spawn area (columns 4-5 of the two top rows) is occupied.
fn blocked_spawn_board() -> Board {
    let mut board = Board::new();
    for y in 0..2 {
        for x in 4..6 {
            fill_cell(&mut board, x, y, Color::Grey);
        }
    }
    board
}

#[test]
fn a_new_game_is_fresh() {
    let game = Game::new();
    let snap = game.snapshot();
    assert_eq!(snap.score, 0);
    assert!(!snap.lost);
    assert!(!snap.paused);
    for y in 0..BOARD_HEIGHT {
        for x in 0..BOARD_WIDTH {
            assert_eq!(snap.grid[y][x], None);
        }
    }
}

#[test]
fn gravity_fires_only_past_the_threshold() {
    let mut game = Game::from_board(Board::new(), PieceType::T);
    let before = game.snapshot();
    game.tick(500);
    assert_eq!(cells_of(&game.snapshot()), cells_of(&before));
    game.tick(1);
    let after = game.snapshot();
    for (b, a) in cells_of(&before).iter().zip(cells_of(&after).iter()) {
        assert_eq!(a.x, b.x);
        assert_eq!(a.y, b.y + 1);
    }
}

#[test]
fn soft_drop_forces_an_immediate_step() {
    let mut game = Game::from_board(Board::new(), PieceType::L);
    let before = game.snapshot();
    game.on_key(Event::SoftDrop);
    game.tick(0);
    let after = game.snapshot();
    for (b, a) in cells_of(&before).iter().zip(cells_of(&after).iter()) {
        assert_eq!(a.x, b.x);
        assert_eq!(a.y, b.y + 1);
    }
    // The flag is consumed: another zero-time tick does nothing.
    let rest = game.snapshot();
    game.tick(0);
    assert_eq!(cells_of(&game.snapshot()), cells_of(&rest));
}

#[test]
fn toggle_pause_suspends_gravity_until_toggled_again() {
    let mut game = Game::from_board(Board::new(), PieceType::S);
    game.on_key(Event::TogglePause);
    let before = game.snapshot();
    assert!(before.paused);
    game.tick(10_000);
    let during = game.snapshot();
    assert_eq!(cells_of(&during), cells_of(&before));
    assert!(grids_equal(&during, &before));
    game.on_key(Event::TogglePause);
    // Time kept accumulating while paused, so gravity fires at once.
    game.tick(0);
    let after = game.snapshot();
    assert!(!after.paused);
    for (b, a) in cells_of(&before).iter().zip(cells_of(&after).iter()) {
        assert_eq!(a.y, b.y + 1);
    }
}

#[test]
fn move_left_at_the_wall_is_a_silent_no_op() {
    let mut game = Game::new();
    // More than enough moves to reach the wall from any spawn.
    for _ in 0..10 {
        game.on_key(Event::MoveLeft);
    }
    let at_wall = game.snapshot();
    assert!(cells_of(&at_wall).iter().any(|c| c.x == 0));
    game.on_key(Event::MoveLeft);
    let after = game.snapshot();
    assert_eq!(cells_of(&after), cells_of(&at_wall));
    assert!(grids_equal(&after, &at_wall));
    assert_eq!(after.score, at_wall.score);
    assert_eq!(after.lost, at_wall.lost);
}

#[test]
fn move_right_at_the_wall_is_a_silent_no_op() {
    let mut game = Game::new();
    for _ in 0..10 {
        game.on_key(Event::MoveRight);
    }
    let at_wall = game.snapshot();
    assert!(cells_of(&at_wall).iter().any(|c| c.x == BOARD_WIDTH as i32 - 1));
    game.on_key(Event::MoveRight);
    assert_eq!(cells_of(&game.snapshot()), cells_of(&at_wall));
}

#[test]
fn blocked_move_into_an_occupied_cell_is_rejected() {
    let mut board = Board::new();
    // A wall of cells in column 3, tall enough to face the spawned piece.
    for y in 0..6 {
        fill_cell(&mut board, 3, y, Color::Grey);
    }
    let mut game = Game::from_board(board, PieceType::Block);
    assert!(!game.snapshot().lost);
    // The Block spawns at columns 4-5; a step left would put its left
    // cells into the occupied column 3.
    let before = game.snapshot();
    game.on_key(Event::MoveLeft);
    assert_eq!(cells_of(&game.snapshot()), cells_of(&before));
}

#[test]
fn hard_drop_positions_at_the_lowest_legal_spot() {
    let mut game = Game::from_board(Board::new(), PieceType::L);
    game.on_key(Event::HardDrop);
    let snap = game.snapshot();
    // The L spawns at column 5 and falls to rest on the floor.
    let mut cells = cells_of(&snap).to_vec();
    cells.sort_by_key(|c| (c.y, c.x));
    assert_eq!(cells, vec![pt(5, 17), pt(5, 18), pt(5, 19), pt(6, 19)]);
    // It is not locked yet: the grid is still empty.
    for y in 0..BOARD_HEIGHT {
        for x in 0..BOARD_WIDTH {
            assert_eq!(snap.grid[y][x], None);
        }
    }
    // The next tick locks it in place with the type's color.
    game.tick(0);
    let locked = game.snapshot();
    assert_eq!(locked.grid[17][5], Some(Color::Orange));
    assert_eq!(locked.grid[18][5], Some(Color::Orange));
    assert_eq!(locked.grid[19][5], Some(Color::Orange));
    assert_eq!(locked.grid[19][6], Some(Color::Orange));
    assert_eq!(locked.score, 0);
}

#[test]
fn locking_that_completes_two_rows_scores_two() {
    let mut board = Board::new();
    // Rows 18 and 19 are full except column 5, where the I will land.
    for y in 18..20 {
        for x in 0..BOARD_WIDTH as i32 {
            if x != 5 {
                fill_cell(&mut board, x, y, Color::Grey);
            }
        }
    }
    let mut game = Game::from_board(board, PieceType::I);
    game.on_key(Event::HardDrop);
    game.tick(0);
    let snap = game.snapshot();
    assert_eq!(snap.score, 2);
    assert!(!snap.lost);
    // Both completed rows vanished; the two leftover I cells fell by two.
    assert_eq!(snap.grid[18][5], Some(Color::Pink));
    assert_eq!(snap.grid[19][5], Some(Color::Pink));
    for x in 0..BOARD_WIDTH {
        if x != 5 {
            assert_eq!(snap.grid[18][x], None);
            assert_eq!(snap.grid[19][x], None);
        }
    }
}

#[test]
fn single_cleared_row_scores_one() {
    let mut board = Board::new();
    for x in 0..BOARD_WIDTH as i32 {
        if x != 4 && x != 5 {
            fill_cell(&mut board, x, 19, Color::Grey);
        }
    }
    // Row 18 keeps a marker that must survive and fall by one.
    fill_cell(&mut board, 0, 18, Color::Red);
    let mut game = Game::from_board(board, PieceType::Block);
    game.on_key(Event::HardDrop);
    game.tick(0);
    let snap = game.snapshot();
    assert_eq!(snap.score, 1);
    // The Block filled columns 4-5 of rows 18-19; row 19 cleared, so the
    // Block's upper half and the marker fell one row.
    assert_eq!(snap.grid[19][4], Some(Color::Blue));
    assert_eq!(snap.grid[19][5], Some(Color::Blue));
    assert_eq!(snap.grid[19][0], Some(Color::Red));
    assert_eq!(snap.grid[18][0], None);
}

#[test]
fn spawning_onto_occupied_cells_loses_at_once() {
    for ty in [
        PieceType::Block,
        PieceType::L,
        PieceType::I,
        PieceType::J,
        PieceType::T,
        PieceType::S,
        PieceType::Z,
    ] {
        let game = Game::from_board(blocked_spawn_board(), ty);
        assert!(game.snapshot().lost);
    }
}

#[test]
fn lost_game_restarts_fresh_after_the_delay() {
    let mut game = Game::from_board(blocked_spawn_board(), PieceType::T);
    assert!(game.snapshot().lost);
    game.tick(1000);
    assert!(game.snapshot().lost);
    game.tick(499);
    assert!(game.snapshot().lost);
    // Cumulative elapsed time reaches 1500 ms: a fresh game begins.
    game.tick(1);
    let snap = game.snapshot();
    assert!(!snap.lost);
    assert!(!snap.paused);
    assert_eq!(snap.score, 0);
    for y in 0..BOARD_HEIGHT {
        for x in 0..BOARD_WIDTH {
            assert_eq!(snap.grid[y][x], None);
        }
    }
}

#[test]
fn gravity_stays_suspended_while_lost() {
    let mut game = Game::from_board(blocked_spawn_board(), PieceType::T);
    let before = game.snapshot();
    game.tick(700);
    // Under the restart delay: no gravity step happened, nothing moved.
    let after = game.snapshot();
    assert!(after.lost);
    assert_eq!(cells_of(&after), cells_of(&before));
    assert!(grids_equal(&after, &before));
}

#[test]
fn reset_reinitializes_from_any_state() {
    let mut game = Game::from_board(blocked_spawn_board(), PieceType::Z);
    assert!(game.snapshot().lost);
    game.on_key(Event::Reset);
    let snap = game.snapshot();
    assert!(!snap.lost);
    assert_eq!(snap.score, 0);
    for y in 0..BOARD_HEIGHT {
        for x in 0..BOARD_WIDTH {
            assert_eq!(snap.grid[y][x], None);
        }
    }
}

#[test]
fn quit_changes_nothing_in_the_core() {
    let mut game = Game::from_board(Board::new(), PieceType::J);
    let before = game.snapshot();
    game.on_key(Event::Quit);
    let after = game.snapshot();
    assert_eq!(cells_of(&after), cells_of(&before));
    assert!(grids_equal(&after, &before));
    assert_eq!(after.score, before.score);
    assert_eq!(after.lost, before.lost);
    assert_eq!(after.paused, before.paused);
}

#[test]
fn rotation_changes_cells_and_is_undone_by_four_turns() {
    let mut game = Game::from_board(Board::new(), PieceType::I);
    let before = game.snapshot();
    game.on_key(Event::RotateRight);
    let once = game.snapshot();
    assert_ne!(cells_of(&once), cells_of(&before));
    game.on_key(Event::RotateRight);
    game.on_key(Event::RotateRight);
    game.on_key(Event::RotateRight);
    assert_eq!(cells_of(&game.snapshot()), cells_of(&before));
}

#[test]
fn snapshot_reports_the_piece_color() {
    let game = Game::from_board(Board::new(), PieceType::S);
    assert_eq!(game.snapshot().piece_color, Color::Purple);
}

#[test]
fn hard_drops_eventually_lose_and_never_clear_center_stacks() {
    // Dropping every piece straight down from the spawn column can never
    // complete a row, so the stack must reach the top within a bounded
    // number of locks.
    let mut game = Game::new();
    let mut locks = 0;
    while !game.snapshot().lost && locks < 200 {
        game.on_key(Event::HardDrop);
        game.tick(0);
        locks += 1;
    }
    assert!(game.snapshot().lost);
    assert_eq!(game.snapshot().score, 0);
}
