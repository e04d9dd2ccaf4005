use cliffchess::game::tile::PieceKind;
use cliffchess::game::Position;

fn pos(x: i32, y: i32) -> Position {
    Position { x, y }
}

fn project8(from: Position, to: Position) -> Option<Position> {
    from.project(to, pos(8, 8))
}

#[test]
fn project_orthogonally() {
    assert_eq!(project8(pos(0, 0), pos(2, 0)), Some(pos(3, 0)));
}

#[test]
fn project_diagonally_pos_pos() {
    assert_eq!(project8(pos(0, 0), pos(2, 2)), Some(pos(3, 3)));
}

#[test]
fn project_diagonally_neg_neg() {
    assert_eq!(project8(pos(5, 5), pos(1, 1)), Some(pos(0, 0)));
}

#[test]
fn project_diagonally_neg_pos() {
    assert_eq!(project8(pos(5, 1), pos(1, 5)), Some(pos(0, 6)));
}

#[test]
fn project_diagonally_offset() {
    assert_eq!(project8(pos(7, 4), pos(5, 2)), Some(pos(4, 1)));
}

#[test]
fn project_knightwise() {
    assert_eq!(project8(pos(0, 0), pos(2, 4)), None);
    assert_eq!(project8(pos(3, 3), pos(4, 5)), None);
}

#[test]
fn project_out_of_bounds_0() {
    assert_eq!(project8(pos(2, 2), pos(0, 0)), None);
}

#[test]
fn project_in_bounds_0() {
    assert_eq!(project8(pos(4, 4), pos(1, 1)), Some(pos(0, 0)));
}

#[test]
fn project_in_bounds_7() {
    assert_eq!(project8(pos(2, 2), pos(6, 6)), Some(pos(7, 7)));
}

#[test]
fn project_out_of_bounds_7() {
    assert_eq!(project8(pos(2, 2), pos(7, 7)), None);
}

#[test]
fn project_equal() {
    assert_eq!(project8(pos(2, 2), pos(2, 2)), None);
}

#[test]
fn project_one_step_in_every_direction() {
    let a = pos(3, 3);
    for dx in -1..=1 {
        for dy in -1..=1 {
            if dx == 0 && dy == 0 {
                continue;
            }
            assert_eq!(project8(a, pos(3 + dx, 3 + dy)), Some(pos(3 + 2 * dx, 3 + 2 * dy)));
        }
    }
    assert_eq!(project8(pos(1, 1), pos(0, 0)), None);
    assert_eq!(project8(pos(6, 3), pos(7, 3)), None);
}

#[test]
fn project_far_from_zero_does_not_overflow() {
    let far = pos(i32::MAX, i32::MAX);
    assert_eq!(pos(i32::MIN, i32::MIN).project(far, pos(8, 8)), None);
    assert_eq!(pos(0, 0).project(pos(i32::MAX - 1, 0), pos(i32::MAX, 1)), None);
}

#[test]
fn moore_distance_table() {
    let p = [pos(0, 0), pos(1, 0), pos(1, 1), pos(3, 2), pos(0, 8), pos(8, 0), pos(8, 8)];
    let expected = [
        [0, 1, 1, 3, 8, 8, 8],
        [1, 0, 1, 2, 8, 7, 8],
        [1, 1, 0, 2, 7, 7, 7],
        [3, 2, 2, 0, 6, 5, 6],
        [8, 8, 7, 6, 0, 8, 8],
        [8, 7, 7, 5, 8, 0, 8],
        [8, 8, 7, 6, 8, 8, 0],
    ];
    for i in 0..p.len() {
        for j in 0..p.len() {
            assert_eq!(p[i].moore_distance(p[j]), expected[i][j]);
            assert_eq!(p[i].moore_distance(p[j]), p[j].moore_distance(p[i]));
        }
    }
}

#[test]
fn pawn_and_king_step_once_in_any_direction() {
    for kind in [PieceKind::Pawn, PieceKind::King] {
        assert!(kind.can_move(pos(3, 3), pos(4, 4)));
        assert!(kind.can_move(pos(3, 3), pos(2, 3)));
        assert!(!kind.can_move(pos(3, 3), pos(5, 3)));
        assert!(!kind.can_move(pos(3, 3), pos(3, 3)));
    }
    for x in 0..6 {
        for y in 0..6 {
            assert_eq!(
                PieceKind::King.can_move(pos(2, 2), pos(x, y)),
                PieceKind::Pawn.can_move(pos(2, 2), pos(x, y))
            );
        }
    }
}

#[test]
fn bishop_moves_diagonally() {
    assert!(PieceKind::Bishop.can_move(pos(0, 0), pos(5, 5)));
    assert!(PieceKind::Bishop.can_move(pos(5, 0), pos(2, 3)));
    assert!(!PieceKind::Bishop.can_move(pos(0, 0), pos(1, 2)));
    assert!(!PieceKind::Bishop.can_move(pos(2, 2), pos(2, 2)));
}

#[test]
fn knight_moves_in_an_l() {
    assert!(PieceKind::Knight.can_move(pos(0, 0), pos(1, 2)));
    assert!(PieceKind::Knight.can_move(pos(4, 4), pos(2, 3)));
    assert!(!PieceKind::Knight.can_move(pos(0, 0), pos(2, 2)));
    assert!(!PieceKind::Knight.can_move(pos(0, 0), pos(0, 2)));
    assert!(!PieceKind::Knight.can_move(pos(i32::MIN, 0), pos(i32::MAX, 1)));
}

#[test]
fn rook_moves_orthogonally() {
    assert!(PieceKind::Rook.can_move(pos(0, 0), pos(0, 5)));
    assert!(PieceKind::Rook.can_move(pos(7, 3), pos(1, 3)));
    assert!(!PieceKind::Rook.can_move(pos(0, 0), pos(1, 1)));
    assert!(!PieceKind::Rook.can_move(pos(3, 3), pos(3, 3)));
}
