use cliffchess::game::board::{question, Board, GameState, InvalidMove, Move, Question, Rules, Ruling, IO};
use cliffchess::game::rules::confirm_request;
use cliffchess::game::tile::{Piece, PieceKind, Tile, TileKind};
use cliffchess::game::{Position, Team};

/// Answers from a list, and remembers what was shown.
struct Script {
    answers: Vec<String>,
    shown: Vec<String>,
    asked: usize,
}

impl Script {
    fn new(answers: &[&str]) -> Self {
        Script { answers: answers.iter().map(|a| a.to_string()).collect(), shown: Vec::new(), asked: 0 }
    }
}

impl IO for Script {
    fn output(&mut self, msg: &str) {
        self.shown.push(msg.to_string());
    }

    fn input(&mut self) -> String {
        self.asked += 1;
        if self.answers.is_empty() {
            String::new()
        } else {
            self.answers.remove(0)
        }
    }
}

fn pos(x: i32, y: i32) -> Position {
    Position { x, y }
}

fn place<const N: usize>(board: &mut Board<N>, x: i32, y: i32, team: Team, kind: PieceKind) {
    board.tiles[N - 1 - y as usize][x as usize].piece = Some(Piece { team, kind });
}

fn raise<const N: usize>(board: &mut Board<N>, x: i32, y: i32, height: u8) {
    board.tiles[N - 1 - y as usize][x as usize].height = height;
}

fn piece_at<const N: usize>(board: &Board<N>, x: i32, y: i32) -> Option<Piece> {
    board.tile(pos(x, y)).piece
}

fn red(kind: PieceKind) -> Option<Piece> {
    Some(Piece { team: Team::Red, kind })
}

fn blue(kind: PieceKind) -> Option<Piece> {
    Some(Piece { team: Team::Blue, kind })
}

#[test]
fn rook_moves_along_flat_file() {
    let mut board = Board::<8>::default();
    place(&mut board, 0, 0, Team::Blue, PieceKind::Rook);
    let mut io = Script::new(&[]);
    let r = board.resolve(&Rules::default(), &mut io, pos(0, 0), pos(0, 5), None);
    assert!(matches!(r, Ok(Move::Move { from, to }) if from == pos(0, 0) && to == pos(0, 5)));
    assert_eq!(io.asked, 0);
}

#[test]
fn bishop_cannot_move_like_a_knight() {
    let mut board = Board::<8>::default();
    place(&mut board, 0, 0, Team::Blue, PieceKind::Bishop);
    let before = board;
    let mut io = Script::new(&[]);
    let r = board.resolve(&Rules::default(), &mut io, pos(0, 0), pos(1, 2), None);
    assert!(matches!(
        r,
        Err(InvalidMove::InvalidTrajectory(PieceKind::Bishop, a, b)) if a == pos(0, 0) && b == pos(1, 2)
    ));
    assert_eq!(board, before);
}

#[test]
fn double_cliff_climb_is_denied_by_default() {
    let mut board = Board::<8>::default();
    place(&mut board, 0, 0, Team::Blue, PieceKind::Rook);
    raise(&mut board, 0, 1, 2);
    let before = board;
    let mut io = Script::new(&[]);
    let r = board.resolve(&Rules::default(), &mut io, pos(0, 0), pos(0, 2), None);
    match r {
        Err(InvalidMove::Denied(reason)) => {
            assert_eq!(reason, "You cannot move a piece up a 2-high cliff.");
        }
        other => panic!("expected a denial, got {other:?}"),
    }
    assert_eq!(io.shown, vec!["You cannot move a piece up a 2-high cliff.".to_string()]);
    assert_eq!(io.asked, 0);
    assert_eq!(board, before);
}

#[test]
fn moving_on_after_a_climb_is_denied_by_default() {
    let mut board = Board::<8>::default();
    place(&mut board, 0, 0, Team::Blue, PieceKind::Rook);
    raise(&mut board, 0, 1, 1);
    raise(&mut board, 0, 2, 1);
    let mut io = Script::new(&[]);
    let r = board.resolve(&Rules::default(), &mut io, pos(0, 0), pos(0, 2), None);
    assert!(matches!(r, Err(InvalidMove::Denied(reason)) if reason == "A piece cannot keep moving after climbing up a step."));
    let r = board.resolve(&Rules::default(), &mut io, pos(0, 0), pos(0, 1), None);
    assert!(matches!(r, Ok(Move::Move { .. })));
}

#[test]
fn knight_push_onto_a_far_square_is_invalid() {
    let mut board = Board::<8>::default();
    place(&mut board, 0, 0, Team::Blue, PieceKind::Knight);
    place(&mut board, 1, 2, Team::Red, PieceKind::Pawn);
    let before = board;
    let mut io = Script::new(&[]);
    let r = board.resolve(&Rules::default(), &mut io, pos(0, 0), pos(1, 2), Some(pos(3, 2)));
    assert!(matches!(r, Err(InvalidMove::InvalidPush(a, b)) if a == pos(1, 2) && b == pos(3, 2)));
    assert_eq!(board, before);
    let r = board.resolve(&Rules::default(), &mut io, pos(0, 0), pos(1, 2), None);
    assert!(matches!(r, Err(InvalidMove::MissingPush(a)) if a == pos(1, 2)));
}

#[test]
fn knight_push_onto_a_neighbour() {
    let mut board = Board::<8>::default();
    place(&mut board, 0, 0, Team::Blue, PieceKind::Knight);
    place(&mut board, 1, 2, Team::Red, PieceKind::Pawn);
    let mut io = Script::new(&[]);
    let m = board.resolve(&Rules::default(), &mut io, pos(0, 0), pos(1, 2), Some(pos(2, 2))).unwrap();
    assert_eq!(m, Move::KnightPush { from: pos(0, 0), to: pos(1, 2), push: pos(2, 2) });
    let state = board.make_move_unchecked(m).unwrap();
    assert_eq!(state, GameState::Ongoing);
    assert_eq!(piece_at(&board, 0, 0), None);
    assert_eq!(piece_at(&board, 1, 2), blue(PieceKind::Knight));
    assert_eq!(piece_at(&board, 2, 2), red(PieceKind::Pawn));
    assert_eq!(board.turn, Team::Red);
}

fn edge_push_board() -> Board<8> {
    let mut board = Board::<8>::default();
    place(&mut board, 0, 5, Team::Blue, PieceKind::Rook);
    place(&mut board, 0, 7, Team::Red, PieceKind::Pawn);
    board
}

#[test]
fn push_off_the_edge_confirmed() {
    let mut board = edge_push_board();
    let mut io = Script::new(&["adios"]);
    let m = board.resolve(&Rules::default(), &mut io, pos(0, 5), pos(0, 7), None).unwrap();
    assert_eq!(m, Move::Push { from: pos(0, 5), to: pos(0, 7) });
    assert_eq!(
        io.shown,
        vec!["Your piece will fall off the board and die.".to_string(), "Type adios to continue anyway.".to_string()]
    );
    assert_eq!(board.make_move_unchecked(m).unwrap(), GameState::Ongoing);
    assert_eq!(piece_at(&board, 0, 5), None);
    assert_eq!(piece_at(&board, 0, 7), blue(PieceKind::Rook));
}

#[test]
fn push_off_the_edge_declined() {
    let board = edge_push_board();
    let before = board;
    let mut io = Script::new(&["no"]);
    let r = board.resolve(&Rules::default(), &mut io, pos(0, 5), pos(0, 7), None);
    assert!(matches!(r, Err(InvalidMove::Cancelled(_))));
    assert_eq!(io.asked, 1);
    assert_eq!(board, before);
}

#[test]
fn warning_phrase_is_case_sensitive() {
    let board = edge_push_board();
    let mut io = Script::new(&["ADIOS"]);
    let r = board.resolve(&Rules::default(), &mut io, pos(0, 5), pos(0, 7), None);
    assert!(matches!(r, Err(InvalidMove::Cancelled(_))));
}

#[test]
fn pushing_the_enemy_king_off_wins() {
    let mut board = Board::<8>::default();
    place(&mut board, 0, 5, Team::Blue, PieceKind::Rook);
    place(&mut board, 0, 7, Team::Red, PieceKind::King);
    let mut io = Script::new(&["adios"]);
    let m = board.resolve(&Rules::default(), &mut io, pos(0, 5), pos(0, 7), None).unwrap();
    assert_eq!(io.asked, 1);
    assert!(!io.shown.iter().any(|s| s.contains("gg")));
    assert_eq!(board.make_move_unchecked(m).unwrap(), GameState::Won(Team::Blue));
}

#[test]
fn enemy_king_lost_in_a_collision_wins_without_asking() {
    let mut board = Board::<8>::default();
    place(&mut board, 2, 2, Team::Blue, PieceKind::Bishop);
    place(&mut board, 4, 4, Team::Red, PieceKind::Pawn);
    place(&mut board, 5, 5, Team::Red, PieceKind::King);
    let rules = Rules { cliff_bonk_friendly_fire: Ruling::Allow, ..Rules::default() };
    let mut io = Script::new(&[]);
    let m = board.resolve(&rules, &mut io, pos(2, 2), pos(4, 4), None).unwrap();
    assert_eq!(io.asked, 0);
    assert_eq!(board.make_move_unchecked(m).unwrap(), GameState::Won(Team::Blue));
    assert_eq!(piece_at(&board, 4, 4), blue(PieceKind::Bishop));
    assert_eq!(piece_at(&board, 5, 5), None);
}

#[test]
fn friendly_collision_asks_bonk() {
    let mut board = Board::<8>::default();
    place(&mut board, 0, 0, Team::Blue, PieceKind::Rook);
    place(&mut board, 0, 3, Team::Red, PieceKind::Pawn);
    place(&mut board, 0, 4, Team::Red, PieceKind::Knight);
    let mut io = Script::new(&["bonk"]);
    let m = board.resolve(&Rules::default(), &mut io, pos(0, 0), pos(0, 3), None).unwrap();
    assert_eq!(io.shown[1], "Type bonk to continue anyway.");
    board.make_move_unchecked(m).unwrap();
    assert_eq!(piece_at(&board, 0, 0), None);
    assert_eq!(piece_at(&board, 0, 3), blue(PieceKind::Rook));
    assert_eq!(piece_at(&board, 0, 4), None);
}

#[test]
fn collision_with_another_team_asks_nothing() {
    let mut board = Board::<8>::default();
    place(&mut board, 0, 0, Team::Blue, PieceKind::Rook);
    place(&mut board, 0, 3, Team::Red, PieceKind::Pawn);
    place(&mut board, 0, 4, Team::Blue, PieceKind::Knight);
    let mut io = Script::new(&[]);
    let m = board.resolve(&Rules::default(), &mut io, pos(0, 0), pos(0, 3), None).unwrap();
    assert_eq!(io.asked, 0);
    board.make_move_unchecked(m).unwrap();
    assert_eq!(piece_at(&board, 0, 4), None);
}

#[test]
fn pushing_a_teammate_is_allowed_by_default() {
    let mut board = Board::<8>::default();
    place(&mut board, 3, 3, Team::Blue, PieceKind::King);
    place(&mut board, 3, 4, Team::Blue, PieceKind::Pawn);
    let mut io = Script::new(&[]);
    let m = board.resolve(&Rules::default(), &mut io, pos(3, 3), pos(3, 4), None).unwrap();
    assert_eq!(m, Move::Push { from: pos(3, 3), to: pos(3, 4) });
    board.make_move_unchecked(m).unwrap();
    assert_eq!(piece_at(&board, 3, 4), blue(PieceKind::King));
    assert_eq!(piece_at(&board, 3, 5), blue(PieceKind::Pawn));
    let denying = Rules { push_teammates: Ruling::Deny("no".to_string()), ..Rules::default() };
    board.turn = Team::Blue;
    let r = board.resolve(&denying, &mut io, pos(3, 4), pos(3, 5), None);
    assert!(matches!(r, Err(InvalidMove::Denied(reason)) if reason == "no"));
}

#[test]
fn falling_off_a_cliff_asks_yeet_and_kills_the_mover() {
    let mut board = Board::<8>::default();
    place(&mut board, 2, 2, Team::Blue, PieceKind::Rook);
    raise(&mut board, 2, 2, 2);
    let mut io = Script::new(&["yeet"]);
    let m = board.resolve(&Rules::default(), &mut io, pos(2, 2), pos(5, 2), None).unwrap();
    assert_eq!(io.shown[1], "Type yeet to continue anyway.");
    assert_eq!(board.make_move_unchecked(m).unwrap(), GameState::Ongoing);
    assert_eq!(piece_at(&board, 2, 2), None);
    assert_eq!(piece_at(&board, 5, 2), None);
}

#[test]
fn own_king_off_a_cliff_asks_gg_and_loses() {
    let mut board = Board::<8>::default();
    place(&mut board, 2, 2, Team::Blue, PieceKind::King);
    raise(&mut board, 2, 2, 2);
    let mut io = Script::new(&["yeet", "gg"]);
    let m = board.resolve(&Rules::default(), &mut io, pos(2, 2), pos(3, 3), None).unwrap();
    assert_eq!(io.asked, 2);
    assert_eq!(io.shown[3], "Type gg to continue anyway.");
    assert_eq!(board.make_move_unchecked(m).unwrap(), GameState::Won(Team::Red));
    let mut board2 = Board::<8>::default();
    place(&mut board2, 2, 2, Team::Blue, PieceKind::King);
    raise(&mut board2, 2, 2, 2);
    let mut io = Script::new(&["yeet", "no"]);
    let r = board2.resolve(&Rules::default(), &mut io, pos(2, 2), pos(3, 3), None);
    assert!(matches!(r, Err(InvalidMove::Cancelled(_))));
}

#[test]
fn validation_errors() {
    let mut board = Board::<8>::default();
    place(&mut board, 1, 1, Team::Red, PieceKind::Pawn);
    let mut io = Script::new(&[]);
    let rules = Rules::default();
    assert!(matches!(board.resolve(&rules, &mut io, pos(8, 0), pos(0, 0), None), Err(InvalidMove::OutOfBounds(p)) if p == pos(8, 0)));
    assert!(matches!(board.resolve(&rules, &mut io, pos(1, 1), pos(-1, 0), None), Err(InvalidMove::OutOfBounds(p)) if p == pos(-1, 0)));
    assert!(matches!(board.resolve(&rules, &mut io, pos(0, 0), pos(0, 1), None), Err(InvalidMove::EmptyPosition(p)) if p == pos(0, 0)));
    assert!(matches!(
        board.resolve(&rules, &mut io, pos(1, 1), pos(1, 2), None),
        Err(InvalidMove::WrongTeam(Team::Blue, p, Team::Red)) if p == pos(1, 1)
    ));
    board.turn = Team::Red;
    assert!(matches!(board.resolve(&rules, &mut io, pos(1, 1), pos(1, 1), None), Err(InvalidMove::InvalidTrajectory(..))));
    assert!(matches!(board.resolve(&rules, &mut io, pos(1, 1), pos(1, 2), None), Ok(Move::Move { .. })));
}

#[test]
fn resigning_gives_the_game_away() {
    let mut board = Board::<6>::default();
    place(&mut board, 1, 1, Team::Red, PieceKind::Pawn);
    let before = board;
    assert_eq!(board.make_move_unchecked(Move::Resign).unwrap(), GameState::Won(Team::Red));
    assert_eq!(board, before);
}

#[test]
fn moving_flips_the_turn() {
    let mut board = Board::<6>::default();
    place(&mut board, 1, 1, Team::Blue, PieceKind::Pawn);
    let mut io = Script::new(&[]);
    let m = board.resolve(&Rules::default(), &mut io, pos(1, 1), pos(2, 2), None).unwrap();
    assert_eq!(board.make_move_unchecked(m).unwrap(), GameState::Ongoing);
    assert_eq!(board.turn, Team::Red);
    assert_eq!(piece_at(&board, 2, 2), blue(PieceKind::Pawn));
    assert_eq!(board.tile(pos(2, 2)).kind, TileKind::Normal);
}

#[test]
fn reading_a_square() {
    assert!(matches!(Board::<8>::read_position("Cancel", "cancel", true), Err(InvalidMove::Cancelled(_))));
    assert!(matches!(Board::<8>::read_position("z", "z", true), Err(InvalidMove::InvalidPosition(_))));
    assert!(matches!(Board::<6>::read_position("g1", "g1", true), Err(InvalidMove::OutOfBounds(p)) if p == pos(6, 0)));
    assert!(matches!(Board::<6>::read_position("g1", "g1", false), Ok(p) if p == pos(6, 0)));
}

#[test]
fn asking_for_a_move() {
    let mut board = Board::<8>::default();
    place(&mut board, 0, 0, Team::Blue, PieceKind::Knight);
    place(&mut board, 1, 2, Team::Red, PieceKind::Pawn);
    let mut io = Script::new(&["a1", "b3", "c3"]);
    let m = board.get_move_from(&Rules::default(), &mut io).unwrap();
    assert_eq!(m, Move::KnightPush { from: pos(0, 0), to: pos(1, 2), push: pos(2, 2) });
    let mut io = Script::new(&["a1", "CANCEL"]);
    assert!(matches!(board.get_move_from(&Rules::default(), &mut io), Err(InvalidMove::Cancelled(_))));
    let mut io = Script::new(&["b3"]);
    assert!(matches!(board.get_move_from(&Rules::default(), &mut io), Err(InvalidMove::WrongTeam(..))));
}

#[test]
fn tile_lookup_flips_the_rows() {
    let mut board = Board::<6>::default();
    board.tiles[0][0] = Tile { height: 1, kind: TileKind::Goal(Team::Red), piece: red(PieceKind::King) };
    assert_eq!(board.tile(pos(0, 5)).piece, red(PieceKind::King));
    assert_eq!(board.tile(pos(0, 0)).piece, None);
    assert!(board.is_cliff(pos(0, 5), pos(0, 0)) == false);
    board.tiles[0][0].height = 2;
    assert!(board.is_cliff(pos(0, 5), pos(0, 0)));
}

#[test]
fn legal_moves_of_a_lone_king() {
    let mut board = Board::<8>::default();
    place(&mut board, 0, 0, Team::Blue, PieceKind::King);
    place(&mut board, 5, 5, Team::Red, PieceKind::King);
    let moves = board.get_legal_moves();
    assert_eq!(moves.len(), 3);
    for to in [pos(1, 0), pos(0, 1), pos(1, 1)] {
        assert!(moves.contains(&Move::Move { from: pos(0, 0), to }));
    }
}

#[test]
fn legal_moves_list_each_knight_push() {
    let mut board = Board::<8>::default();
    place(&mut board, 0, 0, Team::Blue, PieceKind::Knight);
    place(&mut board, 1, 2, Team::Red, PieceKind::Pawn);
    let moves = board.moves_from(pos(0, 0));
    assert_eq!(moves.len(), 9);
    assert!(moves.contains(&Move::Move { from: pos(0, 0), to: pos(2, 1) }));
    assert!(moves.contains(&Move::KnightPush { from: pos(0, 0), to: pos(1, 2), push: pos(0, 1) }));
    assert!(!moves.contains(&Move::KnightPush { from: pos(0, 0), to: pos(1, 2), push: pos(3, 2) }));
    assert_eq!(board.moves_between(pos(0, 0), pos(1, 2)).len(), 8);
    assert_eq!(board.get_legal_moves(), moves);
}

#[test]
fn texts_shown_to_the_player() {
    assert_eq!(confirm_request("gg"), "Type gg to continue anyway.");
    assert_eq!(question(Question::Piece), "Which piece would you like to move?");
    assert_eq!(question(Question::Destination), "Where would you like to move that piece?");
    assert_eq!(question(Question::PushTarget), "Where would you like to push that piece?");
}

#[test]
fn push_square_is_asked_only_for_a_knight_push() {
    let mut board = Board::<8>::default();
    place(&mut board, 0, 0, Team::Blue, PieceKind::Knight);
    place(&mut board, 1, 2, Team::Red, PieceKind::Pawn);
    place(&mut board, 5, 5, Team::Blue, PieceKind::Rook);
    place(&mut board, 5, 7, Team::Red, PieceKind::Pawn);
    assert!(board.needs_push(pos(0, 0), pos(1, 2)));
    assert!(!board.needs_push(pos(0, 0), pos(2, 1)));
    assert!(!board.needs_push(pos(5, 5), pos(5, 7)));
    board.turn = Team::Red;
    assert!(!board.needs_push(pos(0, 0), pos(1, 2)));
}

#[test]
fn first_denial_decides_before_a_later_warning() {
    let mut board = Board::<8>::default();
    place(&mut board, 0, 0, Team::Blue, PieceKind::Rook);
    raise(&mut board, 0, 1, 2);
    raise(&mut board, 0, 3, 0);
    let mut io = Script::new(&["yeet"]);
    let r = board.resolve(&Rules::default(), &mut io, pos(0, 0), pos(0, 3), None);
    assert!(matches!(r, Err(InvalidMove::Denied(_))));
    assert_eq!(io.asked, 0);
}
