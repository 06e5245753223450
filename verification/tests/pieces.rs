use tetris_core::piece::{Color, Dir, Piece, PieceData, PieceType, Point};

const ALL_TYPES: [PieceType; 7] = [
    PieceType::Block,
    PieceType::L,
    PieceType::I,
    PieceType::J,
    PieceType::T,
    PieceType::S,
    PieceType::Z,
];

fn points(d: PieceData) -> [Point; 4] {
    [d.0, d.1, d.2, d.3]
}

#[test]
fn origin_shapes_match_the_table() {
    let expect = |ty: PieceType| -> [(i32, i32); 4] {
        match ty {
            PieceType::Block => [(0, 0), (1, 0), (0, 1), (1, 1)],
            PieceType::L => [(0, 0), (0, 1), (0, 2), (1, 2)],
            PieceType::I => [(0, 0), (0, 1), (0, 2), (0, 3)],
            PieceType::J => [(1, 0), (1, 1), (1, 2), (0, 2)],
            PieceType::T => [(0, 1), (1, 1), (1, 0), (2, 1)],
            PieceType::S => [(0, 1), (1, 1), (1, 0), (2, 0)],
            PieceType::Z => [(0, 0), (1, 0), (1, 1), (2, 1)],
        }
    };
    for ty in ALL_TYPES {
        let shape = points(ty.origin());
        let want = expect(ty);
        for i in 0..4 {
            assert_eq!(shape[i].x, want[i].0);
            assert_eq!(shape[i].y, want[i].1);
        }
    }
}

#[test]
fn origin_shapes_have_four_distinct_offsets() {
    for ty in ALL_TYPES {
        let shape = points(ty.origin());
        for i in 0..4 {
            for j in 0..4 {
                if i != j {
                    assert_ne!(shape[i], shape[j]);
                }
            }
        }
    }
}

#[test]
fn centers_are_deterministic_and_exact() {
    for ty in ALL_TYPES {
        let shape = ty.origin();
        let once = shape.center();
        let twice = shape.center();
        assert_eq!(once, twice);
    }
    assert_eq!(PieceType::Block.origin().center(), Point { x: 1, y: 1 });
    assert_eq!(PieceType::L.origin().center(), Point { x: 0, y: 1 });
    assert_eq!(PieceType::I.origin().center(), Point { x: 0, y: 2 });
    assert_eq!(PieceType::J.origin().center(), Point { x: 1, y: 1 });
    assert_eq!(PieceType::T.origin().center(), Point { x: 1, y: 1 });
    assert_eq!(PieceType::S.origin().center(), Point { x: 1, y: 1 });
    assert_eq!(PieceType::Z.origin().center(), Point { x: 1, y: 1 });
}

#[test]
fn rotating_four_times_restores_the_absolute_cells() {
    for ty in ALL_TYPES {
        for dir in [Dir::Left, Dir::Right] {
            let piece = Piece::from_type(ty);
            let before = piece.coords();
            let rotated = piece.rotate(dir).rotate(dir).rotate(dir).rotate(dir);
            assert_eq!(rotated.coords(), before);
            assert_eq!(rotated, piece);
        }
    }
}

#[test]
fn opposite_rotations_cancel() {
    for ty in ALL_TYPES {
        let piece = Piece::from_type(ty);
        assert_eq!(piece.rotate(Dir::Left).rotate(Dir::Right), piece);
        assert_eq!(piece.rotate(Dir::Right).rotate(Dir::Left), piece);
    }
}

#[test]
fn moves_translate_the_absolute_cells() {
    let piece = Piece::from_type(PieceType::T);
    let base = points(piece.coords());
    let down = points(piece.move_down().coords());
    let left = points(piece.move_left().coords());
    let right = points(piece.move_right().coords());
    for i in 0..4 {
        assert_eq!(down[i], Point { x: base[i].x, y: base[i].y + 1 });
        assert_eq!(left[i], Point { x: base[i].x - 1, y: base[i].y });
        assert_eq!(right[i], Point { x: base[i].x + 1, y: base[i].y });
    }
}

#[test]
fn spawn_is_horizontally_centered_at_the_top() {
    for ty in ALL_TYPES {
        let piece = Piece::from_type(ty);
        let center = ty.origin().center();
        let shape = points(ty.origin());
        let cells = points(piece.coords());
        for i in 0..4 {
            assert_eq!(cells[i].x, shape[i].x + 5 - center.x);
            assert_eq!(cells[i].y, shape[i].y);
            assert!(cells[i].y >= 0 && cells[i].y < 4);
            assert!(cells[i].x >= 4 && cells[i].x < 8);
        }
    }
}

#[test]
fn each_type_has_its_fixed_color() {
    assert_eq!(Piece::from_type(PieceType::Block).color(), Color::Blue);
    assert_eq!(Piece::from_type(PieceType::L).color(), Color::Orange);
    assert_eq!(Piece::from_type(PieceType::I).color(), Color::Pink);
    assert_eq!(Piece::from_type(PieceType::J).color(), Color::Red);
    assert_eq!(Piece::from_type(PieceType::T).color(), Color::Yellow);
    assert_eq!(Piece::from_type(PieceType::S).color(), Color::Purple);
    assert_eq!(Piece::from_type(PieceType::Z).color(), Color::Green);
}

#[test]
fn fixed_palette_roles() {
    assert_eq!(Color::border(), Color::Grey);
    assert_eq!(Color::background(), Color::DarkGrey);
    assert_eq!(Color::dead(), Color::TransparentRed);
    assert_eq!(Color::paused(), Color::TransparentBlue);
}

#[test]
fn random_pieces_are_valid_spawns() {
    for _ in 0..100 {
        let piece = Piece::random();
        let cells = points(piece.coords());
        for cell in cells {
            assert!(cell.x >= 4 && cell.x < 8);
            assert!(cell.y >= 0 && cell.y < 4);
        }
    }
}
