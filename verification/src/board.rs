//! The board: a fixed grid of optional colored cells. It owns the single
//! legality predicate (`collides`), the commitment of a piece's cells
//! (`lock`), and full-row detection and removal with downward compaction
//! (`clear_full_rows`).

use vstd::prelude::*;

use crate::piece::{Color, PieceData, Point};
use crate::{BOARD_HEIGHT, BOARD_WIDTH};

verus! {

/// Whether a coordinate lies on the board.
pub open spec fn in_bounds(p: Point) -> bool {
    &&& 0 <= p.x < BOARD_WIDTH
    &&& 0 <= p.y < BOARD_HEIGHT
}

/// Whether a coordinate is illegal on the given grid: outside the board,
/// or coinciding with an occupied cell.
pub open spec fn cell_blocked(b: Seq<Seq<Option<Color>>>, p: Point) -> bool {
    ||| !in_bounds(p)
    ||| b[p.y as int][p.x as int] is Some
}

/// The single legality predicate: whether any of the four coordinates is
/// outside the board or already occupied.
pub open spec fn collides_spec(b: Seq<Seq<Option<Color>>>, cells: PieceData) -> bool {
    ||| cell_blocked(b, cells.0)
    ||| cell_blocked(b, cells.1)
    ||| cell_blocked(b, cells.2)
    ||| cell_blocked(b, cells.3)
}

/// Whether `(x, y)` is one of the four cells.
pub open spec fn covers(cells: PieceData, x: int, y: int) -> bool {
    ||| (cells.0.x == x && cells.0.y == y)
    ||| (cells.1.x == x && cells.1.y == y)
    ||| (cells.2.x == x && cells.2.y == y)
    ||| (cells.3.x == x && cells.3.y == y)
}

/// The grid with the four cells written with `color` and every other cell
/// unchanged.
pub open spec fn lock_spec(
    b: Seq<Seq<Option<Color>>>,
    cells: PieceData,
    color: Color,
) -> Seq<Seq<Option<Color>>> {
    Seq::new(
        b.len(),
        |y: int|
            Seq::new(
                b[y].len(),
                |x: int| if covers(cells, x, y) { Some(color) } else { b[y][x] },
            ),
    )
}

/// A row is full when every cell holds a color.
pub open spec fn full_row(row: Seq<Option<Color>>) -> bool {
    forall|x: int| 0 <= x < row.len() ==> (#[trigger] row[x]) is Some
}

/// A row of empty cells.
pub open spec fn empty_row_spec() -> Seq<Option<Color>> {
    Seq::new(BOARD_WIDTH as nat, |x: int| None::<Color>)
}

/// The rows that are not full, in their original order.
pub open spec fn kept_rows(b: Seq<Seq<Option<Color>>>) -> Seq<Seq<Option<Color>>>
    decreases b.len(),
{
    if b.len() == 0 {
        Seq::empty()
    } else if full_row(b[0]) {
        kept_rows(b.skip(1))
    } else {
        seq![b[0]] + kept_rows(b.skip(1))
    }
}

/// How many rows of the grid are full.
pub open spec fn num_cleared(b: Seq<Seq<Option<Color>>>) -> int {
    b.len() - kept_rows(b).len()
}

/// The grid after a clear: the rows that were not full, shifted to the
/// bottom in their original order, with empty rows vacated at the top.
pub open spec fn cleared_board(b: Seq<Seq<Option<Color>>>) -> Seq<Seq<Option<Color>>> {
    Seq::new(num_cleared(b) as nat, |i: int| empty_row_spec()) + kept_rows(b)
}

/// At most as many rows are kept as there are rows.
pub proof fn lemma_kept_rows_len(b: Seq<Seq<Option<Color>>>)
    ensures
        kept_rows(b).len() <= b.len(),
    decreases b.len(),
{
    if b.len() > 0 {
        lemma_kept_rows_len(b.skip(1));
    }
}

/// Keeping the non-full rows distributes over concatenation.
pub proof fn lemma_kept_rows_add(a: Seq<Seq<Option<Color>>>, b: Seq<Seq<Option<Color>>>)
    ensures
        kept_rows(a + b) == kept_rows(a) + kept_rows(b),
    decreases a.len(),
{
    if a.len() == 0 {
        assert(a + b =~= b);
        assert(kept_rows(a) + kept_rows(b) =~= kept_rows(b));
    } else {
        assert((a + b).skip(1) =~= a.skip(1) + b);
        lemma_kept_rows_add(a.skip(1), b);
        if full_row(a[0]) {
            assert((a + b)[0] == a[0]);
        } else {
            assert((a + b)[0] == a[0]);
            assert(seq![a[0]] + (kept_rows(a.skip(1)) + kept_rows(b)) =~= (seq![a[0]]
                + kept_rows(a.skip(1))) + kept_rows(b));
        }
    }
}

/// A grid without a full row keeps all its rows.
pub proof fn lemma_kept_rows_all_kept(b: Seq<Seq<Option<Color>>>)
    requires
        forall|i: int| 0 <= i < b.len() ==> !full_row(#[trigger] b[i]),
    ensures
        kept_rows(b) == b,
    decreases b.len(),
{
    if b.len() == 0 {
        assert(kept_rows(b) =~= b);
    } else {
        assert(forall|i: int|
            0 <= i < b.skip(1).len() ==> !full_row(#[trigger] b.skip(1)[i]));
        lemma_kept_rows_all_kept(b.skip(1));
        assert(seq![b[0]] + b.skip(1) =~= b);
    }
}

/// Clearing a grid whose only full row is row `r` removes exactly that row:
/// the result has one empty row at the top, the rows formerly above `r`
/// shifted down by one, and the rows below `r` unchanged.
pub proof fn lemma_clear_single_full_row(b: Seq<Seq<Option<Color>>>, r: int)
    requires
        b.len() == BOARD_HEIGHT,
        0 <= r < BOARD_HEIGHT,
        full_row(b[r]),
        forall|i: int| 0 <= i < BOARD_HEIGHT && i != r ==> !full_row(#[trigger] b[i]),
    ensures
        num_cleared(b) == 1,
        cleared_board(b).len() == BOARD_HEIGHT,
        cleared_board(b)[0] == empty_row_spec(),
        forall|i: int| 1 <= i <= r ==> #[trigger] cleared_board(b)[i] == b[i - 1],
        forall|i: int| r < i < BOARD_HEIGHT ==> #[trigger] cleared_board(b)[i] == b[i],
{
    let above = b.take(r);
    let below = b.skip(r + 1);
    assert(b =~= (above + seq![b[r]]) + below);
    lemma_kept_rows_add(above + seq![b[r]], below);
    lemma_kept_rows_add(above, seq![b[r]]);
    assert(kept_rows(seq![b[r]]) =~= Seq::<Seq<Option<Color>>>::empty()) by {
        let s = seq![b[r]];
        assert(s[0] == b[r]);
        assert(full_row(s[0]));
        assert(s.skip(1) =~= Seq::<Seq<Option<Color>>>::empty());
        assert(kept_rows(Seq::<Seq<Option<Color>>>::empty())
            == Seq::<Seq<Option<Color>>>::empty());
    }
    assert(forall|i: int| 0 <= i < above.len() ==> !full_row(#[trigger] above[i]));
    assert(forall|i: int| 0 <= i < below.len() ==> !full_row(#[trigger] below[i]));
    lemma_kept_rows_all_kept(above);
    lemma_kept_rows_all_kept(below);
    assert(kept_rows(b) =~= above + below);
    assert(cleared_board(b) =~= seq![empty_row_spec()] + above + below);
}

/// Clearing a grid with exactly two full rows removes both in the one call:
/// two empty rows vacate at the top, the rows above the upper full row fall
/// by two, the rows between the full rows fall by one, and the rows below
/// the lower full row are unchanged.
pub proof fn lemma_clear_two_full_rows(b: Seq<Seq<Option<Color>>>, r1: int, r2: int)
    requires
        b.len() == BOARD_HEIGHT,
        0 <= r1 < r2 < BOARD_HEIGHT,
        full_row(b[r1]),
        full_row(b[r2]),
        forall|i: int|
            0 <= i < BOARD_HEIGHT && i != r1 && i != r2 ==> !full_row(#[trigger] b[i]),
    ensures
        num_cleared(b) == 2,
        cleared_board(b).len() == BOARD_HEIGHT,
        cleared_board(b)[0] == empty_row_spec(),
        cleared_board(b)[1] == empty_row_spec(),
        forall|i: int| 2 <= i <= r1 + 1 ==> #[trigger] cleared_board(b)[i] == b[i - 2],
        forall|i: int| r1 + 1 < i <= r2 ==> #[trigger] cleared_board(b)[i] == b[i - 1],
        forall|i: int| r2 < i < BOARD_HEIGHT ==> #[trigger] cleared_board(b)[i] == b[i],
{
    let above = b.take(r1);
    let between = b.subrange(r1 + 1, r2);
    let below = b.skip(r2 + 1);
    assert(b =~= (((above + seq![b[r1]]) + between) + seq![b[r2]]) + below);
    lemma_kept_rows_add(((above + seq![b[r1]]) + between) + seq![b[r2]], below);
    lemma_kept_rows_add((above + seq![b[r1]]) + between, seq![b[r2]]);
    lemma_kept_rows_add(above + seq![b[r1]], between);
    lemma_kept_rows_add(above, seq![b[r1]]);
    assert(kept_rows(seq![b[r1]]) =~= Seq::<Seq<Option<Color>>>::empty()) by {
        let s = seq![b[r1]];
        assert(s[0] == b[r1]);
        assert(full_row(s[0]));
        assert(s.skip(1) =~= Seq::<Seq<Option<Color>>>::empty());
        assert(kept_rows(Seq::<Seq<Option<Color>>>::empty())
            == Seq::<Seq<Option<Color>>>::empty());
    }
    assert(kept_rows(seq![b[r2]]) =~= Seq::<Seq<Option<Color>>>::empty()) by {
        let s = seq![b[r2]];
        assert(s[0] == b[r2]);
        assert(full_row(s[0]));
        assert(s.skip(1) =~= Seq::<Seq<Option<Color>>>::empty());
        assert(kept_rows(Seq::<Seq<Option<Color>>>::empty())
            == Seq::<Seq<Option<Color>>>::empty());
    }
    assert(forall|i: int| 0 <= i < above.len() ==> !full_row(#[trigger] above[i]));
    assert(forall|i: int| 0 <= i < between.len() ==> !full_row(#[trigger] between[i]));
    assert(forall|i: int| 0 <= i < below.len() ==> !full_row(#[trigger] below[i]));
    lemma_kept_rows_all_kept(above);
    lemma_kept_rows_all_kept(between);
    lemma_kept_rows_all_kept(below);
    assert(kept_rows(b) =~= (above + between) + below);
    assert(cleared_board(b) =~= ((seq![empty_row_spec(), empty_row_spec()] + above) + between)
        + below);
}

/// The grid of locked cells.
pub struct Board {
    rows: Vec<Vec<Option<Color>>>,
}

impl View for Board {
    type V = Seq<Seq<Option<Color>>>;

    closed spec fn view(&self) -> Seq<Seq<Option<Color>>> {
        self.rows@.map_values(|r: Vec<Option<Color>>| r@)
    }
}

impl Board {
    /// The grid has exactly `BOARD_HEIGHT` rows of `BOARD_WIDTH` cells.
    pub open spec fn wf(self) -> bool {
        &&& self@.len() == BOARD_HEIGHT
        &&& forall|y: int| 0 <= y < BOARD_HEIGHT ==> (#[trigger] self@[y]).len() == BOARD_WIDTH
    }

    /// A row of empty cells.
    fn empty_row() -> (r: Vec<Option<Color>>)
        ensures
            r@ == empty_row_spec(),
    {
        let mut row: Vec<Option<Color>> = Vec::new();
        let mut x: usize = 0;
        while x < BOARD_WIDTH
            invariant
                x <= BOARD_WIDTH,
                row@.len() == x,
                forall|i: int| 0 <= i < x ==> #[trigger] row@[i] is None,
            decreases BOARD_WIDTH - x,
        {
            row.push(None);
            x += 1;
        }
        proof {
            assert(row@ =~= empty_row_spec());
        }
        row
    }

    /// An empty board.
    pub fn new() -> (r: Board)
        ensures
            r.wf(),
            forall|y: int, x: int|
                0 <= y < BOARD_HEIGHT && 0 <= x < BOARD_WIDTH ==> #[trigger] r@[y][x] is None,
    {
        let mut rows: Vec<Vec<Option<Color>>> = Vec::new();
        let mut y: usize = 0;
        while y < BOARD_HEIGHT
            invariant
                y <= BOARD_HEIGHT,
                rows@.len() == y,
                forall|i: int| 0 <= i < y ==> #[trigger] rows@[i]@ == empty_row_spec(),
            decreases BOARD_HEIGHT - y,
        {
            rows.push(Self::empty_row());
            y += 1;
        }
        let r = Board { rows };
        proof {
            assert(forall|y: int| 0 <= y < BOARD_HEIGHT ==> #[trigger] r@[y] == empty_row_spec());
        }
        r
    }

    /// The cell at column `x`, row `y`.
    pub fn cell(&self, x: usize, y: usize) -> (r: Option<Color>)
        requires
            self.wf(),
            x < BOARD_WIDTH,
            y < BOARD_HEIGHT,
        ensures
            r == self@[y as int][x as int],
    {
        let row = &self.rows[y];
        proof {
            assert(row@ == self@[y as int]);
        }
        row[x]
    }

    /// Whether one coordinate is outside the board or already occupied.
    fn blocked(&self, p: Point) -> (r: bool)
        requires
            self.wf(),
        ensures
            r == cell_blocked(self@, p),
    {
        if p.x < 0 || p.x >= BOARD_WIDTH as i32 || p.y < 0 || p.y >= BOARD_HEIGHT as i32 {
            return true;
        }
        let row = &self.rows[p.y as usize];
        proof {
            assert(row@ == self@[p.y as int]);
        }
        row[p.x as usize].is_some()
    }

    /// Whether any of the four coordinates is outside the board or coincides
    /// with an occupied cell. This is the single legality test used for
    /// movement, rotation and spawn-blocking; it never reports why it failed.
    pub fn collides(&self, cells: PieceData) -> (r: bool)
        requires
            self.wf(),
        ensures
            r == collides_spec(self@, cells),
    {
        self.blocked(cells.0) || self.blocked(cells.1) || self.blocked(cells.2)
            || self.blocked(cells.3)
    }

    /// Writes `color` into one legal cell.
    fn set_cell(&mut self, p: Point, color: Color)
        requires
            old(self).wf(),
            in_bounds(p),
        ensures
            final(self).wf(),
            final(self)@ == old(self)@.update(
                p.y as int,
                old(self)@[p.y as int].update(p.x as int, Some(color)),
            ),
    {
        proof {
            assert(old(self)@[p.y as int] == self.rows@[p.y as int]@);
        }
        let row = &mut self.rows[p.y as usize];
        row.set(p.x as usize, Some(color));
        proof {
            assert(self@ =~= old(self)@.update(
                p.y as int,
                old(self)@[p.y as int].update(p.x as int, Some(color)),
            ));
        }
    }

    /// Writes `color` into the four cells. The caller must have verified
    /// legality already: the state machine only locks a piece whose current
    /// cells passed `collides`.
    pub fn lock(&mut self, cells: PieceData, color: Color)
        requires
            old(self).wf(),
            !collides_spec(old(self)@, cells),
        ensures
            final(self).wf(),
            final(self)@ == lock_spec(old(self)@, cells, color),
    {
        self.set_cell(cells.0, color);
        self.set_cell(cells.1, color);
        self.set_cell(cells.2, color);
        self.set_cell(cells.3, color);
        proof {
            let l = lock_spec(old(self)@, cells, color);
            assert forall|y: int| 0 <= y < BOARD_HEIGHT implies #[trigger] self@[y] =~= l[y] by {
                assert forall|x: int| 0 <= x < BOARD_WIDTH implies #[trigger] self@[y][x] == l[y][x]
                by {
                }
            }
            assert(self@ =~= l);
        }
    }

    /// Whether every cell of the row holds a color.
    fn row_is_full(row: &Vec<Option<Color>>) -> (r: bool)
        ensures
            r == full_row(row@),
    {
        let mut x: usize = 0;
        while x < row.len()
            invariant
                x <= row@.len(),
                forall|i: int| 0 <= i < x ==> (#[trigger] row@[i]) is Some,
            decreases row@.len() - x,
        {
            if row[x].is_none() {
                return false;
            }
            x += 1;
        }
        true
    }

    /// Finds all full rows, removes them together, shifts the rows above
    /// each removed row down to fill the gap, and vacates empty rows at the
    /// top. Returns how many rows were cleared.
    pub fn clear_full_rows(&mut self) -> (count: usize)
        requires
            old(self).wf(),
        ensures
            final(self).wf(),
            final(self)@ == cleared_board(old(self)@),
            count == num_cleared(old(self)@),
            count <= BOARD_HEIGHT,
    {
        let ghost orig = self@;
        let mut kept: Vec<Vec<Option<Color>>> = Vec::new();
        proof {
            assert(orig.skip(0) =~= orig);
            assert(kept@.map_values(|r: Vec<Option<Color>>| r@)
                =~= Seq::<Seq<Option<Color>>>::empty());
            assert(Seq::<Seq<Option<Color>>>::empty() + kept_rows(orig) =~= kept_rows(orig));
        }
        let mut y: usize = 0;
        while y < BOARD_HEIGHT
            invariant
                y <= BOARD_HEIGHT,
                orig.len() == BOARD_HEIGHT,
                forall|i: int| 0 <= i < BOARD_HEIGHT ==> (#[trigger] orig[i]).len() == BOARD_WIDTH,
                self.rows@.len() == BOARD_HEIGHT - y,
                forall|i: int|
                    0 <= i < BOARD_HEIGHT - y ==> #[trigger] self.rows@[i]@ == orig[y + i],
                kept@.map_values(|r: Vec<Option<Color>>| r@) + kept_rows(orig.skip(y as int))
                    == kept_rows(orig),
                forall|i: int| 0 <= i < kept@.len() ==> (#[trigger] kept@[i])@.len() == BOARD_WIDTH,
            decreases BOARD_HEIGHT - y,
        {
            let ghost keptv = kept@.map_values(|r: Vec<Option<Color>>| r@);
            let ghost rest = orig.skip(y as int);
            let row = self.rows.remove(0);
            proof {
                assert(row@ == orig[y as int]);
                assert(rest[0] == orig[y as int]);
                assert(rest.skip(1) =~= orig.skip(y + 1));
            }
            if !Self::row_is_full(&row) {
                kept.push(row);
                proof {
                    assert(kept@.map_values(|r: Vec<Option<Color>>| r@) =~= keptv + seq![
                        orig[y as int],
                    ]);
                    assert((keptv + seq![orig[y as int]]) + kept_rows(orig.skip(y + 1)) =~= keptv
                        + (seq![orig[y as int]] + kept_rows(orig.skip(y + 1))));
                }
            }
            y += 1;
        }
        proof {
            assert(orig.skip(BOARD_HEIGHT as int) =~= Seq::<Seq<Option<Color>>>::empty());
            assert(kept@.map_values(|r: Vec<Option<Color>>| r@) + kept_rows(
                orig.skip(BOARD_HEIGHT as int),
            ) =~= kept@.map_values(|r: Vec<Option<Color>>| r@));
            lemma_kept_rows_len(orig);
        }
        let count = BOARD_HEIGHT - kept.len();
        let mut rows: Vec<Vec<Option<Color>>> = Vec::new();
        let mut i: usize = 0;
        while i < count
            invariant
                i <= count,
                rows@.len() == i,
                forall|j: int| 0 <= j < i ==> #[trigger] rows@[j]@ == empty_row_spec(),
            decreases count - i,
        {
            rows.push(Self::empty_row());
            i += 1;
        }
        rows.append(&mut kept);
        self.rows = rows;
        proof {
            assert(self@ =~= cleared_board(orig));
            assert(forall|j: int|
                0 <= j < BOARD_HEIGHT ==> (#[trigger] cleared_board(orig)[j]).len()
                    == BOARD_WIDTH);
        }
        count
    }
}

} // verus!
