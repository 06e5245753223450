//! The piece catalog (the seven tetromino shapes, their rotation centers
//! and colors) and the falling piece with its movement and rotation
//! operations. Moving or rotating returns a candidate value; the caller
//! decides whether to commit it after a legality check on the board.

use vstd::prelude::*;

verus! {

/// A cell coordinate or offset on the grid.
#[derive(Clone, Copy, PartialEq, Eq, Structural, Debug)]
pub struct Point {
    pub x: i32,
    pub y: i32,
}

/// Four cells of a tetromino: shape offsets, or absolute board cells.
#[derive(Clone, Copy, PartialEq, Eq, Structural, Debug)]
pub struct PieceData(pub Point, pub Point, pub Point, pub Point);

/// The palette: one color per piece type, plus border, background and
/// overlay tones used by a renderer.
#[derive(Clone, Copy, PartialEq, Eq, Structural, Debug)]
pub enum Color {
    Blue,
    Purple,
    Orange,
    Yellow,
    Red,
    Grey,
    DarkGrey,
    Green,
    Pink,
    TransparentRed,
    TransparentBlue,
}

impl Color {
    /// Tone of the board border.
    pub fn border() -> (r: Color)
        ensures
            r == Color::Grey,
    {
        Color::Grey
    }

    /// Tone of the empty board cells.
    pub fn background() -> (r: Color)
        ensures
            r == Color::DarkGrey,
    {
        Color::DarkGrey
    }

    /// Overlay tone shown after a loss.
    pub fn dead() -> (r: Color)
        ensures
            r == Color::TransparentRed,
    {
        Color::TransparentRed
    }

    /// Overlay tone shown while paused.
    pub fn paused() -> (r: Color)
        ensures
            r == Color::TransparentBlue,
    {
        Color::TransparentBlue
    }
}

/// The seven tetromino types.
#[derive(Clone, Copy, PartialEq, Eq, Structural, Debug)]
pub enum PieceType {
    Block,
    L,
    I,
    J,
    T,
    S,
    Z,
}

/// A rotation direction.
#[derive(Clone, Copy, PartialEq, Eq, Structural, Debug)]
pub enum Dir {
    Left,
    Right,
}

/// The canonical shape of each piece type: four offsets from a local origin.
pub open spec fn origin_spec(ty: PieceType) -> PieceData {
    match ty {
        PieceType::S => PieceData(
            Point { x: 0, y: 1 },
            Point { x: 1, y: 1 },
            Point { x: 1, y: 0 },
            Point { x: 2, y: 0 },
        ),
        PieceType::Block => PieceData(
            Point { x: 0, y: 0 },
            Point { x: 1, y: 0 },
            Point { x: 0, y: 1 },
            Point { x: 1, y: 1 },
        ),
        PieceType::L => PieceData(
            Point { x: 0, y: 0 },
            Point { x: 0, y: 1 },
            Point { x: 0, y: 2 },
            Point { x: 1, y: 2 },
        ),
        PieceType::I => PieceData(
            Point { x: 0, y: 0 },
            Point { x: 0, y: 1 },
            Point { x: 0, y: 2 },
            Point { x: 0, y: 3 },
        ),
        PieceType::J => PieceData(
            Point { x: 1, y: 0 },
            Point { x: 1, y: 1 },
            Point { x: 1, y: 2 },
            Point { x: 0, y: 2 },
        ),
        PieceType::T => PieceData(
            Point { x: 0, y: 1 },
            Point { x: 1, y: 1 },
            Point { x: 1, y: 0 },
            Point { x: 2, y: 1 },
        ),
        PieceType::Z => PieceData(
            Point { x: 0, y: 0 },
            Point { x: 1, y: 0 },
            Point { x: 1, y: 1 },
            Point { x: 2, y: 1 },
        ),
    }
}

/// The fixed color of each piece type.
pub open spec fn color_spec(ty: PieceType) -> Color {
    match ty {
        PieceType::Block => Color::Blue,
        PieceType::L => Color::Orange,
        PieceType::I => Color::Pink,
        PieceType::J => Color::Red,
        PieceType::T => Color::Yellow,
        PieceType::S => Color::Purple,
        PieceType::Z => Color::Green,
    }
}

impl PieceType {
    /// The canonical shape of this type, exactly as tabulated.
    pub fn origin(self) -> (r: PieceData)
        ensures
            r == origin_spec(self),
    {
        match self {
            PieceType::S => PieceData(
                Point { x: 0, y: 1 },
                Point { x: 1, y: 1 },
                Point { x: 1, y: 0 },
                Point { x: 2, y: 0 },
            ),
            PieceType::Block => PieceData(
                Point { x: 0, y: 0 },
                Point { x: 1, y: 0 },
                Point { x: 0, y: 1 },
                Point { x: 1, y: 1 },
            ),
            PieceType::L => PieceData(
                Point { x: 0, y: 0 },
                Point { x: 0, y: 1 },
                Point { x: 0, y: 2 },
                Point { x: 1, y: 2 },
            ),
            PieceType::I => PieceData(
                Point { x: 0, y: 0 },
                Point { x: 0, y: 1 },
                Point { x: 0, y: 2 },
                Point { x: 0, y: 3 },
            ),
            PieceType::J => PieceData(
                Point { x: 1, y: 0 },
                Point { x: 1, y: 1 },
                Point { x: 1, y: 2 },
                Point { x: 0, y: 2 },
            ),
            PieceType::T => PieceData(
                Point { x: 0, y: 1 },
                Point { x: 1, y: 1 },
                Point { x: 1, y: 0 },
                Point { x: 2, y: 1 },
            ),
            PieceType::Z => PieceData(
                Point { x: 0, y: 0 },
                Point { x: 1, y: 0 },
                Point { x: 1, y: 1 },
                Point { x: 2, y: 1 },
            ),
        }
    }
}

impl PieceData {
    /// The rounded centroid of the four cells: the sum of each coordinate,
    /// biased by +2, divided by 4.
    pub open spec fn center_spec(self) -> Point {
        Point {
            x: ((self.0.x + self.1.x + self.2.x + self.3.x + 2) / 4) as i32,
            y: ((self.0.y + self.1.y + self.2.y + self.3.y + 2) / 4) as i32,
        }
    }

    /// The rotation center of a canonical shape.
    pub fn center(&self) -> (r: Point)
        requires
            0 <= self.0.x <= 3 && 0 <= self.0.y <= 3,
            0 <= self.1.x <= 3 && 0 <= self.1.y <= 3,
            0 <= self.2.x <= 3 && 0 <= self.2.y <= 3,
            0 <= self.3.x <= 3 && 0 <= self.3.y <= 3,
        ensures
            r == self.center_spec(),
    {
        let sx = self.0.x + self.1.x + self.2.x + self.3.x;
        let sy = self.0.y + self.1.y + self.2.y + self.3.y;
        Point { x: (sx + 2) / 4, y: (sy + 2) / 4 }
    }
}

/// Whether `p` lies within four cells of `c` in each coordinate; rotation
/// about `c` permutes and negates these distances, so it preserves this.
pub open spec fn near(p: Point, c: Point) -> bool {
    &&& -4 <= p.x - c.x <= 4
    &&& -4 <= p.y - c.y <= 4
}

/// The four offsets are pairwise distinct.
pub open spec fn distinct_cells(d: PieceData) -> bool {
    &&& d.0 != d.1 && d.0 != d.2 && d.0 != d.3
    &&& d.1 != d.2 && d.1 != d.3
    &&& d.2 != d.3
}

/// Every canonical shape has offsets within `[0, 3]`, four pairwise-distinct
/// cells, and a rotation center on the grid near all four offsets with
/// `x` at most 1 and `y` at most 2.
pub proof fn lemma_origin_shape_props(ty: PieceType)
    ensures
        0 <= origin_spec(ty).0.x <= 3 && 0 <= origin_spec(ty).0.y <= 3,
        0 <= origin_spec(ty).1.x <= 3 && 0 <= origin_spec(ty).1.y <= 3,
        0 <= origin_spec(ty).2.x <= 3 && 0 <= origin_spec(ty).2.y <= 3,
        0 <= origin_spec(ty).3.x <= 3 && 0 <= origin_spec(ty).3.y <= 3,
        distinct_cells(origin_spec(ty)),
        0 <= origin_spec(ty).center_spec().x <= 1,
        1 <= origin_spec(ty).center_spec().y <= 2,
        near(origin_spec(ty).0, origin_spec(ty).center_spec()),
        near(origin_spec(ty).1, origin_spec(ty).center_spec()),
        near(origin_spec(ty).2, origin_spec(ty).center_spec()),
        near(origin_spec(ty).3, origin_spec(ty).center_spec()),
{
    match ty {
        PieceType::S => {
            assert(origin_spec(ty).center_spec() == Point { x: 1, y: 1 });
        },
        PieceType::Block => {
            assert(origin_spec(ty).center_spec() == Point { x: 1, y: 1 });
        },
        PieceType::L => {
            assert(origin_spec(ty).center_spec() == Point { x: 0, y: 1 });
        },
        PieceType::I => {
            assert(origin_spec(ty).center_spec() == Point { x: 0, y: 2 });
        },
        PieceType::J => {
            assert(origin_spec(ty).center_spec() == Point { x: 1, y: 1 });
        },
        PieceType::T => {
            assert(origin_spec(ty).center_spec() == Point { x: 1, y: 1 });
        },
        PieceType::Z => {
            assert(origin_spec(ty).center_spec() == Point { x: 1, y: 1 });
        },
    }
}

/// One offset rotated a quarter turn about a center. Clockwise maps the
/// displacement `(dx, dy)` from the center to `(dy, -dx)`; counter-clockwise
/// is the inverse.
pub open spec fn rotate_pt(p: Point, c: Point, dir: Dir) -> Point {
    match dir {
        Dir::Right => Point { x: (p.y - c.y + c.x) as i32, y: (c.x - p.x + c.y) as i32 },
        Dir::Left => Point { x: (c.y - p.y + c.x) as i32, y: (p.x - c.x + c.y) as i32 },
    }
}

/// The falling piece: a catalog shape (possibly rotated) plus a translation.
/// Its absolute cells are the shape offsets shifted by the translation.
#[derive(Clone, Copy, PartialEq, Eq, Structural, Debug)]
pub struct Piece {
    pub data: PieceData,
    pub x_offset: i32,
    pub y_offset: i32,
    pub center: Point,
    pub ty: PieceType,
}

impl Piece {
    /// The shape and center stay within the small box every reachable piece
    /// inhabits: rotations preserve the distance bounds, and the center is
    /// fixed at construction.
    pub open spec fn shape_wf(self) -> bool {
        &&& 0 <= self.center.x <= 3
        &&& 0 <= self.center.y <= 3
        &&& near(self.data.0, self.center)
        &&& near(self.data.1, self.center)
        &&& near(self.data.2, self.center)
        &&& near(self.data.3, self.center)
    }

    /// Loose bounds on the translation, wide enough for any candidate one
    /// step away from a committed piece; they keep coordinate sums exact.
    pub open spec fn offsets_wf(self) -> bool {
        &&& -1000 <= self.x_offset <= 1000
        &&& -1000 <= self.y_offset <= 1000
    }

    /// Tight bounds on the translation, holding of every committed piece:
    /// a committed piece is either a fresh spawn or sits fully on the board.
    pub open spec fn offsets_snug(self) -> bool {
        &&& -100 <= self.x_offset <= 100
        &&& -100 <= self.y_offset <= 100
    }

    pub open spec fn wf(self) -> bool {
        self.shape_wf() && self.offsets_wf()
    }

    /// The absolute board-space cells: each shape offset plus the translation.
    pub open spec fn coords_spec(self) -> PieceData {
        PieceData(
            Point {
                x: (self.data.0.x + self.x_offset) as i32,
                y: (self.data.0.y + self.y_offset) as i32,
            },
            Point {
                x: (self.data.1.x + self.x_offset) as i32,
                y: (self.data.1.y + self.y_offset) as i32,
            },
            Point {
                x: (self.data.2.x + self.x_offset) as i32,
                y: (self.data.2.y + self.y_offset) as i32,
            },
            Point {
                x: (self.data.3.x + self.x_offset) as i32,
                y: (self.data.3.y + self.y_offset) as i32,
            },
        )
    }

    pub open spec fn move_down_spec(self) -> Piece {
        Piece { y_offset: (self.y_offset + 1) as i32, ..self }
    }

    pub open spec fn move_right_spec(self) -> Piece {
        Piece { x_offset: (self.x_offset + 1) as i32, ..self }
    }

    pub open spec fn move_left_spec(self) -> Piece {
        Piece { x_offset: (self.x_offset - 1) as i32, ..self }
    }

    /// The piece with all four shape offsets rotated a quarter turn about
    /// the center; the translation and type are untouched.
    pub open spec fn rotate_spec(self, dir: Dir) -> Piece {
        Piece {
            data: PieceData(
                rotate_pt(self.data.0, self.center, dir),
                rotate_pt(self.data.1, self.center, dir),
                rotate_pt(self.data.2, self.center, dir),
                rotate_pt(self.data.3, self.center, dir),
            ),
            ..self
        }
    }

    /// A copy shifted one row down. Pure: no validation happens here.
    pub fn move_down(self) -> (r: Piece)
        requires
            self.y_offset < i32::MAX,
        ensures
            r == self.move_down_spec(),
    {
        Piece { y_offset: self.y_offset + 1, ..self }
    }

    /// A copy shifted one column right. Pure: no validation happens here.
    pub fn move_right(self) -> (r: Piece)
        requires
            self.x_offset < i32::MAX,
        ensures
            r == self.move_right_spec(),
    {
        Piece { x_offset: self.x_offset + 1, ..self }
    }

    /// A copy shifted one column left. Pure: no validation happens here.
    pub fn move_left(self) -> (r: Piece)
        requires
            self.x_offset > i32::MIN,
        ensures
            r == self.move_left_spec(),
    {
        Piece { x_offset: self.x_offset - 1, ..self }
    }

    /// A copy rotated a quarter turn about the center, without any wall-kick
    /// search: the caller rejects a rotation that lands illegally.
    pub fn rotate(self, dir: Dir) -> (r: Piece)
        requires
            self.shape_wf(),
        ensures
            r == self.rotate_spec(dir),
            r.shape_wf(),
            r.x_offset == self.x_offset,
            r.y_offset == self.y_offset,
    {
        let c = self.center;
        let data = match dir {
            Dir::Right => PieceData(
                Point { x: self.data.0.y - c.y + c.x, y: c.x - self.data.0.x + c.y },
                Point { x: self.data.1.y - c.y + c.x, y: c.x - self.data.1.x + c.y },
                Point { x: self.data.2.y - c.y + c.x, y: c.x - self.data.2.x + c.y },
                Point { x: self.data.3.y - c.y + c.x, y: c.x - self.data.3.x + c.y },
            ),
            Dir::Left => PieceData(
                Point { x: c.y - self.data.0.y + c.x, y: self.data.0.x - c.x + c.y },
                Point { x: c.y - self.data.1.y + c.x, y: self.data.1.x - c.x + c.y },
                Point { x: c.y - self.data.2.y + c.x, y: self.data.2.x - c.x + c.y },
                Point { x: c.y - self.data.3.y + c.x, y: self.data.3.x - c.x + c.y },
            ),
        };
        Piece { data, ..self }
    }

    /// The absolute board-space coordinates, recomputed from the shape and
    /// the translation on every call.
    pub fn coords(self) -> (r: PieceData)
        requires
            self.wf(),
        ensures
            r == self.coords_spec(),
    {
        PieceData(
            Point { x: self.data.0.x + self.x_offset, y: self.data.0.y + self.y_offset },
            Point { x: self.data.1.x + self.x_offset, y: self.data.1.y + self.y_offset },
            Point { x: self.data.2.x + self.x_offset, y: self.data.2.y + self.y_offset },
            Point { x: self.data.3.x + self.x_offset, y: self.data.3.y + self.y_offset },
        )
    }

    /// The fixed color of this piece's type.
    pub fn color(self) -> (r: Color)
        ensures
            r == color_spec(self.ty),
    {
        match self.ty {
            PieceType::Block => Color::Blue,
            PieceType::L => Color::Orange,
            PieceType::I => Color::Pink,
            PieceType::J => Color::Red,
            PieceType::T => Color::Yellow,
            PieceType::S => Color::Purple,
            PieceType::Z => Color::Green,
        }
    }
}

/// The piece type drawn for a bounded random index, as the generator maps it.
pub open spec fn type_of_index(i: u8) -> PieceType {
    if i == 0 {
        PieceType::L
    } else if i == 1 {
        PieceType::Block
    } else if i == 2 {
        PieceType::I
    } else if i == 3 {
        PieceType::J
    } else if i == 4 {
        PieceType::T
    } else if i == 5 {
        PieceType::S
    } else {
        PieceType::Z
    }
}

/// A freshly spawned piece of the given type: canonical shape and center,
/// horizontally centered on the board, at the top row.
pub open spec fn spawn_spec(ty: PieceType) -> Piece {
    let data = origin_spec(ty);
    let c = data.center_spec();
    Piece {
        data,
        x_offset: (crate::BOARD_WIDTH / 2 - c.x) as i32,
        y_offset: 0,
        center: c,
        ty,
    }
}

/// Whether a piece is a fresh spawn of some type.
pub open spec fn is_spawn(p: Piece) -> bool {
    exists|ty: PieceType| p == spawn_spec(ty)
}

/// A fresh spawn occupies only cells with `x` in `[4, 8)` and `y` in
/// `[0, 4)`, is well formed, and starts at the top row.
pub proof fn lemma_spawn_props(p: Piece)
    requires
        is_spawn(p),
    ensures
        p.shape_wf(),
        p.offsets_snug(),
        p.y_offset == 0,
        4 <= p.coords_spec().0.x < 8 && 0 <= p.coords_spec().0.y < 4,
        4 <= p.coords_spec().1.x < 8 && 0 <= p.coords_spec().1.y < 4,
        4 <= p.coords_spec().2.x < 8 && 0 <= p.coords_spec().2.y < 4,
        4 <= p.coords_spec().3.x < 8 && 0 <= p.coords_spec().3.y < 4,
{
    let ty = choose|ty: PieceType| p == spawn_spec(ty);
    lemma_origin_shape_props(ty);
}

/// Relies on `rand::random_range` over the range `0..7`: the sample drawn
/// from the thread-local generator lies within the given non-empty range.
#[verifier::external_body]
fn random_piece_index() -> (r: u8)
    ensures
        r < 7,
{
    rand::random_range(0..7u8)
}

impl PieceType {
    /// The piece type for a bounded random index.
    pub fn from_index(i: u8) -> (r: PieceType)
        ensures
            r == type_of_index(i),
    {
        match i {
            0 => PieceType::L,
            1 => PieceType::Block,
            2 => PieceType::I,
            3 => PieceType::J,
            4 => PieceType::T,
            5 => PieceType::S,
            _ => PieceType::Z,
        }
    }
}

impl Piece {
    /// A freshly spawned piece of the given type.
    pub fn from_type(ty: PieceType) -> (r: Piece)
        ensures
            r == spawn_spec(ty),
            r.shape_wf(),
            r.offsets_snug(),
    {
        proof {
            lemma_origin_shape_props(ty);
        }
        let data = ty.origin();
        let center = data.center();
        Piece {
            data,
            x_offset: (crate::BOARD_WIDTH / 2) as i32 - center.x,
            y_offset: 0,
            center,
            ty,
        }
    }

    /// A freshly spawned piece of a random type.
    pub fn random() -> (r: Piece)
        ensures
            is_spawn(r),
            r.shape_wf(),
            r.offsets_snug(),
    {
        let i = random_piece_index();
        let r = Piece::from_type(PieceType::from_index(i));
        proof {
            assert(r == spawn_spec(type_of_index(i)));
        }
        r
    }
}

/// Rotating four times in the same direction restores each offset exactly:
/// a quarter turn permutes and negates the displacements from the center,
/// and four applications compose to the identity.
pub proof fn lemma_rotate_pt_four(p: Point, c: Point, dir: Dir)
    requires
        near(p, c),
        0 <= c.x <= 3,
        0 <= c.y <= 3,
    ensures
        rotate_pt(rotate_pt(rotate_pt(rotate_pt(p, c, dir), c, dir), c, dir), c, dir) == p,
        near(rotate_pt(p, c, dir), c),
{
}

/// Rotating a piece four times in the same direction returns it to its
/// original value, and hence to its original absolute cell set.
pub proof fn lemma_rotate_four_cycle(p: Piece, dir: Dir)
    requires
        p.shape_wf(),
    ensures
        p.rotate_spec(dir).rotate_spec(dir).rotate_spec(dir).rotate_spec(dir) == p,
{
    lemma_rotate_pt_four(p.data.0, p.center, dir);
    lemma_rotate_pt_four(p.data.1, p.center, dir);
    lemma_rotate_pt_four(p.data.2, p.center, dir);
    lemma_rotate_pt_four(p.data.3, p.center, dir);
}

} // verus!

