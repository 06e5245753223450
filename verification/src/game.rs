//! The game state machine: gravity ticking driven by host-supplied elapsed
//! time, piece spawning, lock-on-collision, row clearing with scoring, loss
//! detection with a timed restart, pause, and discrete input events.

use vstd::prelude::*;

use crate::board::{
    cell_blocked, cleared_board, collides_spec, in_bounds, lock_spec, num_cleared, Board,
};
use crate::piece::{
    color_spec, is_spawn, lemma_origin_shape_props, lemma_spawn_props, spawn_spec, Color, Dir,
    Piece, PieceData, PieceType, Point,
};
use crate::{BOARD_HEIGHT, BOARD_WIDTH};

verus! {

/// Gravity threshold: a gravity step fires once more than this many
/// milliseconds have accumulated since the last step.
pub const GRAVITY_MS: u64 = 500;

/// Restart delay: a lost game restarts fresh once this many milliseconds
/// have accumulated since the loss.
pub const RESET_MS: u64 = 1500;

/// A discrete input event handed to the core by the host. `Quit` is only
/// recognized here; acting on it is the host's business.
#[derive(Clone, Copy, PartialEq, Eq, Structural, Debug)]
pub enum Event {
    MoveLeft,
    MoveRight,
    SoftDrop,
    HardDrop,
    RotateLeft,
    RotateRight,
    TogglePause,
    Reset,
    Quit,
}

/// The whole game state, owned by the host and passed into `tick`,
/// `on_key` and `snapshot`.
pub struct Game {
    pub board: Board,
    pub current: Piece,
    /// Milliseconds accumulated since the last gravity step.
    pub elapsed_ms: u64,
    /// Soft-drop flag: the next tick treats the gravity threshold as elapsed.
    pub down: bool,
    pub lost: bool,
    pub pause: bool,
    /// Total rows cleared so far, one point per row.
    pub score: u64,
}

/// Unsigned addition that stops at the largest value instead of wrapping.
pub open spec fn sat_add(a: u64, b: u64) -> u64 {
    if a + b <= u64::MAX {
        (a + b) as u64
    } else {
        u64::MAX
    }
}

/// The piece one column over in the given direction.
pub open spec fn shifted(p: Piece, dir: Dir) -> Piece {
    match dir {
        Dir::Left => p.move_left_spec(),
        Dir::Right => p.move_right_spec(),
    }
}

/// The piece translated to the given row offset.
pub open spec fn with_y(p: Piece, y: int) -> Piece {
    Piece { y_offset: y as i32, ..p }
}

impl Game {
    /// Internal consistency: the board has its fixed dimensions, the piece
    /// is well formed with a small translation, and outside the lost state
    /// the piece always sits legally on the board — which is what makes
    /// every `lock` call legal by construction.
    pub open spec fn wf(self) -> bool {
        &&& self.board.wf()
        &&& self.current.shape_wf()
        &&& self.current.offsets_snug()
        &&& !self.lost ==> !collides_spec(self.board@, self.current.coords_spec())
    }
}

/// A freshly initialized game: empty board, a spawned piece, score zero,
/// playing and unpaused.
pub open spec fn fresh_game(g: Game) -> bool {
    &&& g.board.wf()
    &&& forall|y: int, x: int|
        0 <= y < BOARD_HEIGHT && 0 <= x < BOARD_WIDTH ==> #[trigger] g.board@[y][x] is None
    &&& is_spawn(g.current)
    &&& g.elapsed_ms == 0
    &&& !g.down
    &&& !g.lost
    &&& !g.pause
    &&& g.score == 0
}

/// How a candidate piece is committed: silently rejected if it collides,
/// otherwise it replaces the current piece. Nothing else changes.
pub open spec fn candidate_applied(g: Game, cand: Piece, g2: Game) -> bool {
    if collides_spec(g.board@, cand.coords_spec()) {
        g2 == g
    } else {
        g2 == Game { current: cand, ..g }
    }
}

/// Whether the gravity step would lock: the piece cannot move down legally.
pub open spec fn gravity_locks(g: Game) -> bool {
    collides_spec(g.board@, g.current.move_down_spec().coords_spec())
}

/// The grid after the current piece's cells are committed.
pub open spec fn board_after_lock(g: Game) -> Seq<Seq<Option<Color>>> {
    lock_spec(g.board@, g.current.coords_spec(), color_spec(g.current.ty))
}

/// One gravity step: the piece advances one row if that is legal; otherwise
/// its current cells are locked into the board, full rows are cleared and
/// scored one point each, a random piece spawns, and the game is lost
/// exactly when that spawned piece immediately collides.
pub open spec fn gravity_step_rel(g: Game, g2: Game) -> bool {
    if !gravity_locks(g) {
        g2 == Game {
            current: g.current.move_down_spec(),
            elapsed_ms: 0,
            down: false,
            ..g
        }
    } else {
        let locked = board_after_lock(g);
        &&& g2.board@ == cleared_board(locked)
        &&& g2.score == sat_add(g.score, num_cleared(locked) as u64)
        &&& is_spawn(g2.current)
        &&& g2.lost == collides_spec(g2.board@, g2.current.coords_spec())
        &&& g2.pause == g.pause
        &&& !g2.down
        &&& g2.elapsed_ms == 0
    }
}

/// What `tick` does for a given elapsed time. While lost, the game either
/// keeps accumulating time or restarts fresh once the delay is reached.
/// Otherwise a gravity step fires once the accumulated time exceeds the
/// threshold, or at once under the soft-drop flag — unless paused, in which
/// case only the accumulator advances.
pub open spec fn tick_rel(g: Game, elapsed_ms: u64, g2: Game) -> bool {
    let t = sat_add(g.elapsed_ms, elapsed_ms);
    if g.lost {
        if t >= RESET_MS {
            fresh_game(g2)
        } else {
            g2 == Game { elapsed_ms: t, ..g }
        }
    } else if !g.pause && (t > GRAVITY_MS || g.down) {
        gravity_step_rel(g, g2)
    } else {
        g2 == Game { elapsed_ms: t, ..g }
    }
}

/// The piece at the lowest legal position straight below the current one:
/// every intermediate single-row step is legal, and one more step collides.
pub open spec fn dropped_piece(g: Game, p: Piece) -> bool {
    exists|k: int|
        #![trigger with_y(g.current, g.current.y_offset + k)]
        {
            &&& 0 <= k
            &&& p == with_y(g.current, g.current.y_offset + k)
            &&& forall|j: int|
                1 <= j <= k ==> !collides_spec(
                    g.board@,
                    (#[trigger] with_y(g.current, g.current.y_offset + j)).coords_spec(),
                )
            &&& collides_spec(
                g.board@,
                with_y(g.current, g.current.y_offset + k + 1).coords_spec(),
            )
        }
}

/// A hard drop repositions the piece at its lowest legal position and sets
/// the soft-drop flag, so the very next tick locks it; it does not lock by
/// itself.
pub open spec fn hard_drop_rel(g: Game, g2: Game) -> bool {
    &&& dropped_piece(g, g2.current)
    &&& g2 == Game { current: g2.current, down: true, ..g }
}

/// What `on_key` does for each event. Movement and rotation candidates are
/// committed only if legal; soft drop and hard drop arm the next tick;
/// pause flips; reset reinitializes everything; quit changes nothing here.
pub open spec fn on_key_rel(g: Game, ev: Event, g2: Game) -> bool {
    match ev {
        Event::MoveLeft => candidate_applied(g, g.current.move_left_spec(), g2),
        Event::MoveRight => candidate_applied(g, g.current.move_right_spec(), g2),
        Event::RotateLeft => candidate_applied(g, g.current.rotate_spec(Dir::Left), g2),
        Event::RotateRight => candidate_applied(g, g.current.rotate_spec(Dir::Right), g2),
        Event::SoftDrop => g2 == Game { down: true, ..g },
        Event::HardDrop => hard_drop_rel(g, g2),
        Event::TogglePause => g2 == Game { pause: !g.pause, ..g },
        Event::Reset => fresh_game(g2),
        Event::Quit => g2 == g,
    }
}

/// A well-formed piece that sits legally on the board has a small
/// translation: each absolute cell is on the board, and the shape offsets
/// are within a few cells of the center.
pub proof fn lemma_on_board_snug(b: Seq<Seq<Option<Color>>>, p: Piece)
    requires
        p.shape_wf(),
        p.offsets_wf(),
        !collides_spec(b, p.coords_spec()),
    ensures
        p.offsets_snug(),
{
    assert(in_bounds(p.coords_spec().0));
    assert(p.coords_spec().0.x == p.data.0.x + p.x_offset);
    assert(p.coords_spec().0.y == p.data.0.y + p.y_offset);
}

/// A spawned piece never collides on an empty board.
pub proof fn lemma_spawn_on_empty(b: Seq<Seq<Option<Color>>>, p: Piece)
    requires
        is_spawn(p),
        forall|y: int, x: int|
            0 <= y < BOARD_HEIGHT && 0 <= x < BOARD_WIDTH ==> #[trigger] b[y][x] is None,
    ensures
        !collides_spec(b, p.coords_spec()),
{
    lemma_spawn_props(p);
}

/// A spawned piece always collides when the two top rows of the board are
/// occupied at columns 4 and 5: every spawn places its first cell there,
/// so spawning onto such a board enters the lost state at once.
pub proof fn lemma_spawn_blocked(b: Seq<Seq<Option<Color>>>, p: Piece)
    requires
        is_spawn(p),
        forall|y: int, x: int| 0 <= y < 2 && 4 <= x < 6 ==> #[trigger] b[y][x] is Some,
    ensures
        collides_spec(b, p.coords_spec()),
{
    lemma_spawn_props(p);
    let ty = choose|ty: PieceType| p == spawn_spec(ty);
    lemma_origin_shape_props(ty);
    let c0 = p.coords_spec().0;
    match ty {
        PieceType::S => {
            assert(c0 == Point { x: 4, y: 1 });
        },
        PieceType::Block => {
            assert(c0 == Point { x: 4, y: 0 });
        },
        PieceType::L => {
            assert(c0 == Point { x: 5, y: 0 });
        },
        PieceType::I => {
            assert(c0 == Point { x: 5, y: 0 });
        },
        PieceType::J => {
            assert(c0 == Point { x: 5, y: 0 });
        },
        PieceType::T => {
            assert(c0 == Point { x: 4, y: 1 });
        },
        PieceType::Z => {
            assert(c0 == Point { x: 4, y: 0 });
        },
    }
    assert(b[c0.y as int][c0.x as int] is Some);
}

/// While paused and not lost, a tick advances only the time accumulator:
/// the piece, the board, the score and the flags are all untouched until
/// pause is toggled again.
pub proof fn lemma_paused_tick_freezes(g: Game, elapsed_ms: u64, g2: Game)
    requires
        !g.lost,
        g.pause,
        tick_rel(g, elapsed_ms, g2),
    ensures
        g2.current == g.current,
        g2.board == g.board,
        g2.score == g.score,
        g2.pause,
        !g2.lost,
        g2.down == g.down,
{
}

/// From the lost state, a tick before the restart delay only accumulates
/// time and stays lost; once the accumulated time reaches the delay, the
/// game restarts fresh: empty board, score zero, playing.
pub proof fn lemma_lost_restart(g: Game, elapsed_ms: u64, g2: Game)
    requires
        g.lost,
        tick_rel(g, elapsed_ms, g2),
    ensures
        sat_add(g.elapsed_ms, elapsed_ms) >= RESET_MS ==> fresh_game(g2),
        sat_add(g.elapsed_ms, elapsed_ms) < RESET_MS ==> g2.lost && g2.board == g.board
            && g2.score == g.score && g2.current == g.current,
{
}

impl Game {
    /// A fresh game: empty board, a random piece spawned at the top, score
    /// zero, playing and unpaused.
    pub fn new() -> (g: Game)
        ensures
            g.wf(),
            fresh_game(g),
    {
        let board = Board::new();
        let current = Piece::random();
        proof {
            lemma_spawn_on_empty(board@, current);
        }
        Game {
            board,
            current,
            elapsed_ms: 0,
            down: false,
            lost: false,
            pause: false,
            score: 0,
        }
    }

    /// A game starting from a given board position with a piece of the given
    /// type spawned at the top; the game starts lost exactly when that spawn
    /// immediately collides.
    pub fn from_board(board: Board, ty: PieceType) -> (g: Game)
        requires
            board.wf(),
        ensures
            g.wf(),
            g.board@ == board@,
            g.current == spawn_spec(ty),
            g.lost == collides_spec(board@, spawn_spec(ty).coords_spec()),
            g.elapsed_ms == 0,
            !g.down,
            !g.pause,
            g.score == 0,
    {
        let current = Piece::from_type(ty);
        let lost = board.collides(current.coords());
        Game {
            board,
            current,
            elapsed_ms: 0,
            down: false,
            lost,
            pause: false,
            score: 0,
        }
    }

    /// Attempts to move the current piece one column in the given direction;
    /// a blocked move leaves the piece unchanged.
    pub fn move_dir(&mut self, dir: Dir)
        requires
            old(self).wf(),
        ensures
            final(self).wf(),
            candidate_applied(*old(self), shifted(old(self).current, dir), *final(self)),
    {
        let next_move = match dir {
            Dir::Left => self.current.move_left(),
            Dir::Right => self.current.move_right(),
        };
        if self.board.collides(next_move.coords()) {
            return;
        }
        proof {
            lemma_on_board_snug(self.board@, next_move);
        }
        self.current = next_move;
    }

    /// Attempts to rotate the current piece a quarter turn in the given
    /// direction; a blocked rotation leaves the piece unchanged.
    pub fn rotate(&mut self, dir: Dir)
        requires
            old(self).wf(),
        ensures
            final(self).wf(),
            candidate_applied(*old(self), old(self).current.rotate_spec(dir), *final(self)),
    {
        let next_move = self.current.rotate(dir);
        if self.board.collides(next_move.coords()) {
            return;
        }
        proof {
            lemma_on_board_snug(self.board@, next_move);
        }
        self.current = next_move;
    }

    /// Repositions the piece at the lowest legal position straight below and
    /// arms the soft-drop flag, handing the lock to the next tick.
    fn hard_drop(&mut self)
        requires
            old(self).wf(),
        ensures
            final(self).wf(),
            hard_drop_rel(*old(self), *final(self)),
    {
        let ghost g0 = *self;
        let mut prev = self.current;
        let mut next = prev.move_down();
        let ghost mut k: int = 0;
        proof {
            assert(prev == with_y(g0.current, g0.current.y_offset + 0));
        }
        while !self.board.collides(next.coords())
            invariant
                *self == g0,
                g0.wf(),
                0 <= k,
                -100 <= g0.current.y_offset + k <= 101,
                prev == with_y(g0.current, g0.current.y_offset + k),
                prev.shape_wf(),
                prev.offsets_snug(),
                next == prev.move_down_spec(),
                forall|j: int|
                    1 <= j <= k ==> !collides_spec(
                        g0.board@,
                        (#[trigger] with_y(g0.current, g0.current.y_offset + j)).coords_spec(),
                    ),
            decreases 200 - (g0.current.y_offset + k),
        {
            prev = next;
            proof {
                lemma_on_board_snug(g0.board@, prev);
                k = k + 1;
                assert(prev.y_offset == g0.current.y_offset + k);
                assert(prev == with_y(g0.current, g0.current.y_offset + k));
                assert(-100 <= g0.current.y_offset + k <= 101);
            }
            next = prev.move_down();
        }
        proof {
            assert(next == with_y(g0.current, g0.current.y_offset + k + 1));
        }
        self.current = prev;
        self.down = true;
        proof {
            assert(dropped_piece(g0, prev));
        }
    }

    /// Handles one discrete input event: movement and rotation are committed
    /// only if legal, soft and hard drop arm the next tick, pause flips,
    /// reset reinitializes the game, and quit is left to the host.
    pub fn on_key(&mut self, ev: Event)
        requires
            old(self).wf(),
        ensures
            final(self).wf(),
            on_key_rel(*old(self), ev, *final(self)),
    {
        match ev {
            Event::MoveLeft => self.move_dir(Dir::Left),
            Event::MoveRight => self.move_dir(Dir::Right),
            Event::RotateLeft => self.rotate(Dir::Left),
            Event::RotateRight => self.rotate(Dir::Right),
            Event::SoftDrop => {
                self.down = true;
            },
            Event::HardDrop => self.hard_drop(),
            Event::TogglePause => {
                self.pause = !self.pause;
            },
            Event::Reset => {
                *self = Game::new();
            },
            Event::Quit => {},
        }
    }

    /// Advances the simulation by the given elapsed wall-clock time: fires a
    /// gravity step once the threshold is exceeded or the soft-drop flag is
    /// set, suspends gravity while paused, and restarts a lost game after
    /// the restart delay.
    pub fn tick(&mut self, elapsed_ms: u64)
        requires
            old(self).wf(),
        ensures
            final(self).wf(),
            tick_rel(*old(self), elapsed_ms, *final(self)),
    {
        let t = if elapsed_ms <= u64::MAX - self.elapsed_ms {
            self.elapsed_ms + elapsed_ms
        } else {
            u64::MAX
        };
        if !self.lost && !self.pause && (t > GRAVITY_MS || self.down) {
            self.down = false;
            self.elapsed_ms = 0;
            let next_move = self.current.move_down();
            if self.board.collides(next_move.coords()) {
                // The piece cannot fall further: lock it where it stands,
                // clear and score full rows, and spawn the next piece.
                let color = self.current.color();
                let cells = self.current.coords();
                self.board.lock(cells, color);
                let count = self.board.clear_full_rows();
                self.score = if (count as u64) <= u64::MAX - self.score {
                    self.score + count as u64
                } else {
                    u64::MAX
                };
                self.current = Piece::random();
                if self.board.collides(self.current.coords()) {
                    self.lost = true;
                }
            } else {
                proof {
                    lemma_on_board_snug(self.board@, next_move);
                }
                self.current = next_move;
            }
        } else if self.lost && t >= RESET_MS {
            *self = Game::new();
        } else {
            self.elapsed_ms = t;
        }
    }
}

impl Default for Game {
    /// A fresh game, as `new` builds it.
    fn default() -> (g: Game)
        ensures
            g.wf(),
            fresh_game(g),
    {
        Game::new()
    }
}

/// A read-only view for rendering: the grid of locked colors, the active
/// piece's absolute cells and color, and the score and state flags.
pub struct Snapshot {
    pub grid: Vec<Vec<Option<Color>>>,
    pub piece_cells: PieceData,
    pub piece_color: Color,
    pub score: u64,
    pub lost: bool,
    pub paused: bool,
}

impl Game {
    /// A renderable copy of the current state; the game itself is untouched.
    pub fn snapshot(&self) -> (s: Snapshot)
        requires
            self.wf(),
        ensures
            s.grid@.len() == BOARD_HEIGHT,
            forall|y: int|
                0 <= y < BOARD_HEIGHT ==> (#[trigger] s.grid@[y])@ == self.board@[y],
            s.piece_cells == self.current.coords_spec(),
            s.piece_color == color_spec(self.current.ty),
            s.score == self.score,
            s.lost == self.lost,
            s.paused == self.pause,
    {
        let mut grid: Vec<Vec<Option<Color>>> = Vec::new();
        let mut y: usize = 0;
        while y < BOARD_HEIGHT
            invariant
                self.wf(),
                y <= BOARD_HEIGHT,
                grid@.len() == y,
                forall|i: int| 0 <= i < y ==> (#[trigger] grid@[i])@ == self.board@[i],
            decreases BOARD_HEIGHT - y,
        {
            let mut row: Vec<Option<Color>> = Vec::new();
            let mut x: usize = 0;
            while x < BOARD_WIDTH
                invariant
                    self.wf(),
                    y < BOARD_HEIGHT,
                    x <= BOARD_WIDTH,
                    row@.len() == x,
                    forall|j: int| 0 <= j < x ==> #[trigger] row@[j] == self.board@[y as int][j],
                decreases BOARD_WIDTH - x,
            {
                row.push(self.board.cell(x, y));
                x += 1;
            }
            proof {
                assert(row@ =~= self.board@[y as int]);
            }
            grid.push(row);
            y += 1;
        }
        Snapshot {
            grid,
            piece_cells: self.current.coords(),
            piece_color: self.current.color(),
            score: self.score,
            lost: self.lost,
            paused: self.pause,
        }
    }
}

/// A move left is rejected when some cell of the piece is already at the
/// left wall: the moved cell would leave the board, so the game is
/// unchanged — a silent no-op, not an error.
pub proof fn lemma_move_left_at_wall(g: Game, g2: Game)
    requires
        g.wf(),
        g.current.coords_spec().0.x == 0 || g.current.coords_spec().1.x == 0
            || g.current.coords_spec().2.x == 0 || g.current.coords_spec().3.x == 0,
        on_key_rel(g, Event::MoveLeft, g2),
    ensures
        g2 == g,
{
    let p = g.current;
    let cand = p.move_left_spec();
    if p.coords_spec().0.x == 0 {
        assert(cand.coords_spec().0.x == -1);
        assert(cell_blocked(g.board@, cand.coords_spec().0));
    } else if p.coords_spec().1.x == 0 {
        assert(cand.coords_spec().1.x == -1);
        assert(cell_blocked(g.board@, cand.coords_spec().1));
    } else if p.coords_spec().2.x == 0 {
        assert(cand.coords_spec().2.x == -1);
        assert(cell_blocked(g.board@, cand.coords_spec().2));
    } else {
        assert(cand.coords_spec().3.x == -1);
        assert(cell_blocked(g.board@, cand.coords_spec().3));
    }
}

} // verus!
