//! The board and the rules engine: which moves are legal, which hazards a
//! move runs into, how the house rules settle them, and what applying a move
//! changes.
use vstd::prelude::*;

pub use super::rules::{
    all_allowed, is_default_rules, is_refusal, none_denied, spec_accepts, spec_settled, Hazard,
    Ruling, Rules, IO,
};
use super::rules::str_eq;
use super::tile::{spec_can_move, Piece, PieceKind, Tile};
use super::{
    abs, is_compass, sign, spec_moore_distance, spec_parse_position, spec_project, Position,
    PositionParseErr, Team,
};

verus! {

/// A move, as resolved against the board it is made on.
#[derive(Debug, Clone, Copy, PartialEq, Eq, Structural)]
pub enum Move {
    /// The destination was empty.
    Move { from: Position, to: Position },
    /// The destination was occupied and the mover is not a Knight: the piece
    /// there is pushed straight on, one square further.
    Push { from: Position, to: Position },
    /// The destination was occupied and the mover is a Knight: the piece there
    /// is pushed onto `push`, a neighbour of `to`.
    KnightPush { from: Position, to: Position, push: Position },
    /// The side to move gives up.
    Resign,
}

/// The move operation was cancelled by the player.
#[derive(Debug, Clone, Copy, PartialEq, Eq, Structural)]
pub struct Cancelled;

/// Why a move was not made.
#[derive(Debug)]
pub enum InvalidMove {
    /// The player declined a warning or cancelled the input.
    Cancelled(Cancelled),
    /// A square could not be read.
    InvalidPosition(PositionParseErr),
    /// The square lies outside the board.
    OutOfBounds(Position),
    /// There is no piece on the square to move.
    EmptyPosition(Position),
    /// The side to move, the square, and the side of the piece on it.
    WrongTeam(Team, Position, Team),
    /// The piece cannot go from the first square to the second.
    InvalidTrajectory(PieceKind, Position, Position),
    /// A Knight must push by one square in one of the 8 directions; it cannot
    /// push from the first square onto the second.
    InvalidPush(Position, Position),
    /// A Knight's push was asked for without a square to push onto.
    MissingPush(Position),
    /// A house rule forbids the move; the reason it gives.
    Denied(String),
}

/// The state of the game after a move.
#[derive(Debug, Clone, Copy, PartialEq, Eq, Structural)]
pub enum GameState {
    Ongoing,
    Won(Team),
}

/// An `N` by `N` grid of tiles and the side to move. `tiles[0]` is the top
/// row, the rank `N - 1`; square `(0, 0)` is the bottom-left corner.
#[derive(Debug, Clone, Copy, PartialEq, Eq)]
pub struct Board<const N: usize> {
    pub tiles: [[Tile; N]; N],
    pub turn: Team,
}

impl<const N: usize> Board<N> {
    /// `p` lies on the board.
    pub open spec fn in_bounds(p: Position) -> bool {
        0 <= p.x < N && 0 <= p.y < N
    }

    /// The tile at square `p`: its row in storage counts from the top.
    pub open spec fn tile_at(self, p: Position) -> Tile {
        self.tiles@[N - 1 - p.y]@[p.x as int]
    }

    /// The tile at square `p`.
    pub fn tile(&self, p: Position) -> (t: Tile)
        requires
            Self::in_bounds(p),
        ensures
            t == self.tile_at(p),
    {
        let row: usize = N - 1 - p.y as usize;
        self.tiles[row][p.x as usize]
    }

    /// Puts `piece` on square `p`, leaving everything else as it was.
    fn set_piece(&mut self, p: Position, piece: Option<Piece>)
        requires
            Self::in_bounds(p),
        ensures
            final(self).turn == old(self).turn,
            forall|q: Position|
                Self::in_bounds(q) ==> #[trigger] final(self).tile_at(q) == (if q == p {
                    Tile { piece, ..old(self).tile_at(q) }
                } else {
                    old(self).tile_at(q)
                }),
    {
        let row: usize = N - 1 - p.y as usize;
        let mut line = self.tiles[row];
        let old_tile = line[p.x as usize];
        line[p.x as usize] = Tile { piece, ..old_tile };
        self.tiles[row] = line;
    }

    /// Going from `from` to `to` drops by 2 levels or more.
    pub fn is_cliff(&self, from: Position, to: Position) -> (r: bool)
        requires
            Self::in_bounds(from),
            Self::in_bounds(to),
        ensures
            r == (self.tile_at(from).height >= self.tile_at(to).height + 2),
    {
        self.tile(from).height as u16 >= self.tile(to).height as u16 + 2
    }

    /// Walks the straight path from `from` to `to` one square at a time and
    /// lists, in order, the hazards the moving piece meets.
    pub fn check_terrain(&self, from: Position, to: Position) -> (r: Vec<Hazard>)
        requires
            Self::in_bounds(from),
            Self::in_bounds(to),
            is_compass(to.x - from.x, to.y - from.y),
        ensures
            r@ == spec_terrain(*self, from, to),
    {
        let sx: i32 = if to.x > from.x {
            1
        } else if to.x < from.x {
            -1
        } else {
            0
        };
        let sy: i32 = if to.y > from.y {
            1
        } else if to.y < from.y {
            -1
        } else {
            0
        };
        let n: u32 = from.moore_distance(to);
        let ghost total = spec_terrain(*self, from, to);
        let mut steps: u32 = n;
        let mut cur = from;
        let mut climbed = false;
        let mut hazards: Vec<Hazard> = Vec::new();
        while steps > 0
            invariant
                Self::in_bounds(from),
                Self::in_bounds(to),
                steps <= n,
                total == terrain_walk(*self, from, sx as int, sy as int, n as nat, false),
                hazards@ + terrain_walk(*self, cur, sx as int, sy as int, steps as nat, climbed)
                    == total,
                (sx == 0 && cur.x == to.x) || (sx == 1 && to.x - cur.x == steps && from.x
                    <= cur.x) || (sx == -1 && cur.x - to.x == steps && cur.x <= from.x),
                (sy == 0 && cur.y == to.y) || (sy == 1 && to.y - cur.y == steps && from.y
                    <= cur.y) || (sy == -1 && cur.y - to.y == steps && cur.y <= from.y),
            decreases steps,
        {
            let next = Position { x: cur.x + sx, y: cur.y + sy };
            let a: u16 = self.tile(cur).height as u16;
            let b: u16 = self.tile(next).height as u16;
            let ghost rest = terrain_walk(
                *self,
                next,
                sx as int,
                sy as int,
                (steps - 1) as nat,
                climbed || b == a + 1,
            );
            let ghost before = hazards@;
            if climbed {
                hazards.push(Hazard::MoveAfterClimb);
            }
            if b >= a + 2 {
                hazards.push(Hazard::ClimbDoubleCliff);
            } else if self.is_cliff(cur, next) {
                hazards.push(Hazard::FallOffCliff);
            }
            assert(hazards@ =~= before + step_hazards(a as int, b as int, climbed));
            assert(hazards@ + rest =~= before + (step_hazards(a as int, b as int, climbed) + rest));
            climbed = climbed || b == a + 1;
            cur = next;
            steps = steps - 1;
        }
        hazards
    }
}

/// The hazards of one step from height `a` to height `b`, `climbed` telling
/// whether the piece has climbed a level before this step: moving on after a
/// climb, then climbing 2 levels or falling 2 levels.
pub open spec fn step_hazards(a: int, b: int, climbed: bool) -> Seq<Hazard> {
    let before = if climbed {
        seq![Hazard::MoveAfterClimb]
    } else {
        Seq::empty()
    };
    let here = if b >= a + 2 {
        seq![Hazard::ClimbDoubleCliff]
    } else if a >= b + 2 {
        seq![Hazard::FallOffCliff]
    } else {
        Seq::empty()
    };
    before + here
}

/// The hazards met walking `steps` steps of `(sx, sy)` from `cur`.
pub open spec fn terrain_walk<const N: usize>(
    board: Board<N>,
    cur: Position,
    sx: int,
    sy: int,
    steps: nat,
    climbed: bool,
) -> Seq<Hazard>
    decreases steps,
{
    if steps == 0 {
        Seq::empty()
    } else {
        let next = Position { x: (cur.x + sx) as i32, y: (cur.y + sy) as i32 };
        let a = board.tile_at(cur).height as int;
        let b = board.tile_at(next).height as int;
        step_hazards(a, b, climbed) + terrain_walk(
            board,
            next,
            sx,
            sy,
            (steps - 1) as nat,
            climbed || b == a + 1,
        )
    }
}

/// The hazards met on the straight path from `from` to `to`.
pub open spec fn spec_terrain<const N: usize>(board: Board<N>, from: Position, to: Position) -> Seq<
    Hazard,
> {
    terrain_walk(
        board,
        from,
        sign(to.x - from.x),
        sign(to.y - from.y),
        spec_moore_distance(from, to) as nat,
        false,
    )
}

/// The square a push sends the pushed piece to, if it stays on the board:
/// straight on past `to` for a `Push`, the chosen square for a `KnightPush`.
pub open spec fn spec_landing<const N: usize>(m: Move) -> Option<Position> {
    match m {
        Move::Push { from, to } => spec_project(from, to, Position { x: N as i32, y: N as i32 }),
        Move::KnightPush { from, to, push } => if Board::<N>::in_bounds(push) {
            Some(push)
        } else {
            None
        },
        _ => None,
    }
}

/// The square a move starts from.
pub open spec fn move_from(m: Move) -> Position {
    match m {
        Move::Move { from, to } => from,
        Move::Push { from, to } => from,
        Move::KnightPush { from, to, push } => from,
        Move::Resign => Position { x: 0, y: 0 },
    }
}

/// The square a move goes to.
pub open spec fn move_to(m: Move) -> Position {
    match m {
        Move::Move { from, to } => to,
        Move::Push { from, to } => to,
        Move::KnightPush { from, to, push } => to,
        Move::Resign => Position { x: 0, y: 0 },
    }
}

/// `m` pushes the piece on its destination.
pub open spec fn is_push(m: Move) -> bool {
    m is Push || m is KnightPush
}

/// The moving piece of `m` on `board`.
pub open spec fn spec_mover<const N: usize>(board: Board<N>, m: Move) -> Piece {
    board.tile_at(move_from(m)).piece->0
}

/// The piece that `m` pushes.
pub open spec fn spec_defender<const N: usize>(board: Board<N>, m: Move) -> Piece {
    board.tile_at(move_to(m)).piece->0
}

/// The moving piece falls down a cliff on its way and dies on arrival.
/// Knights jump, and meet no terrain.
pub open spec fn spec_mover_dies<const N: usize>(board: Board<N>, m: Move) -> bool {
    &&& spec_mover(board, m).kind != PieceKind::Knight
    &&& spec_terrain(board, move_from(m), move_to(m)).contains(Hazard::FallOffCliff)
}

/// The pushed piece leaves the board.
pub open spec fn spec_pushed_off<const N: usize>(m: Move) -> bool {
    is_push(m) && spec_landing::<N>(m) is None
}

/// The pushed piece lands on an occupied square: both it and the occupant
/// are destroyed.
pub open spec fn spec_bonk<const N: usize>(board: Board<N>, m: Move) -> bool {
    &&& is_push(m)
    &&& spec_landing::<N>(m) is Some
    &&& board.tile_at(spec_landing::<N>(m)->0).piece is Some
}

/// The pieces that `m` destroys: the mover if it falls down a cliff, the
/// pushed piece if it leaves the board or collides, and the piece it
/// collides with.
pub open spec fn spec_casualties<const N: usize>(board: Board<N>, m: Move) -> Seq<Piece> {
    let mover = if spec_mover_dies(board, m) {
        seq![spec_mover(board, m)]
    } else {
        Seq::empty()
    };
    let pushed = if spec_pushed_off::<N>(m) {
        seq![spec_defender(board, m)]
    } else if spec_bonk(board, m) {
        seq![spec_defender(board, m), board.tile_at(spec_landing::<N>(m)->0).piece->0]
    } else {
        Seq::empty()
    };
    mover + pushed
}

/// Among `pieces` is the King of `team`.
pub open spec fn has_king(pieces: Seq<Piece>, team: Team) -> bool {
    exists|i: int| 0 <= i < pieces.len() && #[trigger] pieces[i] == Piece { team, kind: PieceKind::King }
}

/// The hazards of a push: pushing a teammate; the pushed piece leaving the
/// board, or colliding with a piece of its own team.
pub open spec fn spec_push_hazards<const N: usize>(board: Board<N>, m: Move) -> Seq<Hazard> {
    let teammate = if spec_defender(board, m).team == spec_mover(board, m).team {
        seq![Hazard::PushTeammate]
    } else {
        Seq::empty()
    };
    let landing = if spec_pushed_off::<N>(m) {
        seq![Hazard::FallOffBoard]
    } else if spec_bonk(board, m) && board.tile_at(spec_landing::<N>(m)->0).piece->0.team
        == spec_defender(board, m).team {
        seq![Hazard::FriendlyBonk]
    } else {
        Seq::empty()
    };
    teammate + landing
}

/// The hazard of losing one's own King, if `m` destroys it.
pub open spec fn spec_king_hazard<const N: usize>(board: Board<N>, m: Move) -> Seq<Hazard> {
    if has_king(spec_casualties(board, m), spec_mover(board, m).team) {
        seq![Hazard::KingSuicide]
    } else {
        Seq::empty()
    }
}

/// All the hazards of `m`, in the order they are settled: the terrain on
/// the way, those of the push, and last the loss of one's own King.
pub open spec fn spec_hazards<const N: usize>(board: Board<N>, m: Move) -> Seq<Hazard> {
    let terrain = if spec_mover(board, m).kind == PieceKind::Knight {
        Seq::empty()
    } else {
        spec_terrain(board, move_from(m), move_to(m))
    };
    let push = if is_push(m) {
        spec_push_hazards(board, m)
    } else {
        Seq::empty()
    };
    terrain + push + spec_king_hazard(board, m)
}

/// What moving the piece on `from` to `to` amounts to on `board`, `push`
/// being the square a Knight pushes onto: the move and its hazards, or why
/// it is not legal. The checks come in this order: both squares on the
/// board, a piece on `from`, of the side to move, whose shape allows the
/// move; then, for a Knight pushing, a push square next to `to`.
pub open spec fn spec_plan<const N: usize>(
    board: Board<N>,
    from: Position,
    to: Position,
    push: Option<Position>,
) -> Result<(Move, Seq<Hazard>), InvalidMove> {
    if !Board::<N>::in_bounds(from) {
        Err(InvalidMove::OutOfBounds(from))
    } else if !Board::<N>::in_bounds(to) {
        Err(InvalidMove::OutOfBounds(to))
    } else if board.tile_at(from).piece is None {
        Err(InvalidMove::EmptyPosition(from))
    } else {
        let p = board.tile_at(from).piece->0;
        if p.team != board.turn {
            Err(InvalidMove::WrongTeam(board.turn, from, p.team))
        } else if !spec_can_move(p.kind, from, to) {
            Err(InvalidMove::InvalidTrajectory(p.kind, from, to))
        } else if board.tile_at(to).piece is None {
            let m = Move::Move { from, to };
            Ok((m, spec_hazards(board, m)))
        } else if p.kind == PieceKind::Knight {
            match push {
                None => Err(InvalidMove::MissingPush(to)),
                Some(l) => if spec_moore_distance(to, l) != 1 {
                    Err(InvalidMove::InvalidPush(to, l))
                } else {
                    let m = Move::KnightPush { from, to, push: l };
                    Ok((m, spec_hazards(board, m)))
                },
            }
        } else {
            let m = Move::Push { from, to };
            Ok((m, spec_hazards(board, m)))
        }
    }
}

/// `m` moves a piece of `board` between two squares of the board along a
/// line its kind can take, and a push has a piece to push.
pub open spec fn spec_well_placed<const N: usize>(board: Board<N>, m: Move) -> bool {
    &&& !(m is Resign)
    &&& Board::<N>::in_bounds(move_from(m))
    &&& Board::<N>::in_bounds(move_to(m))
    &&& board.tile_at(move_from(m)).piece is Some
    &&& spec_mover(board, m).kind != PieceKind::Knight ==> is_compass(
        move_to(m).x - move_from(m).x,
        move_to(m).y - move_from(m).y,
    )
    &&& is_push(m) ==> board.tile_at(move_to(m)).piece is Some
}

/// Every shape but the Knight's is a compass direction.
pub proof fn lemma_shape_is_compass(kind: PieceKind, from: Position, to: Position)
    requires
        kind != PieceKind::Knight,
        spec_can_move(kind, from, to),
    ensures
        is_compass(to.x - from.x, to.y - from.y),
{
}

/// Whether `v` holds `h`.
fn contains_hazard(v: &Vec<Hazard>, h: Hazard) -> (r: bool)
    ensures
        r == v@.contains(h),
{
    let mut i: usize = 0;
    while i < v.len()
        invariant
            i <= v@.len(),
            forall|j: int| 0 <= j < i ==> v@[j] != h,
        decreases v@.len() - i,
    {
        if v[i] == h {
            return true;
        }
        i = i + 1;
    }
    false
}

/// Whether `pieces` holds the King of `team`.
fn contains_king(pieces: &Vec<Piece>, team: Team) -> (r: bool)
    ensures
        r == has_king(pieces@, team),
{
    let king = Piece { team, kind: PieceKind::King };
    let mut i: usize = 0;
    while i < pieces.len()
        invariant
            i <= pieces@.len(),
            king == (Piece { team, kind: PieceKind::King }),
            forall|j: int| 0 <= j < i ==> pieces@[j] != king,
        decreases pieces@.len() - i,
    {
        if pieces[i] == king {
            return true;
        }
        i = i + 1;
    }
    false
}

fn move_ends(m: Move) -> (r: (Position, Position))
    requires
        !(m is Resign),
    ensures
        r == (move_from(m), move_to(m)),
{
    match m {
        Move::Move { from, to } => (from, to),
        Move::Push { from, to } => (from, to),
        Move::KnightPush { from, to, push } => (from, to),
        Move::Resign => (Position { x: 0, y: 0 }, Position { x: 0, y: 0 }),
    }
}

impl<const N: usize> Board<N> {
    /// The square a push sends the pushed piece to, if it stays on the board.
    pub fn landing(&self, m: Move) -> (r: Option<Position>)
        requires
            N < 0x8000_0000,
        ensures
            r == spec_landing::<N>(m),
    {
        match m {
            Move::Push { from, to } => from.project(to, Position { x: N as i32, y: N as i32 }),
            Move::KnightPush { from, to, push } => if 0 <= push.x && push.x < N as i32 && 0
                <= push.y && push.y < N as i32 {
                Some(push)
            } else {
                None
            },
            _ => None,
        }
    }

    /// Whether the moving piece falls down a cliff on its way.
    pub fn mover_dies(&self, m: Move) -> (r: bool)
        requires
            spec_well_placed(*self, m),
        ensures
            r == spec_mover_dies(*self, m),
    {
        let (from, to) = move_ends(m);
        let mover = self.tile(from).piece.unwrap();
        if mover.kind == PieceKind::Knight {
            false
        } else {
            contains_hazard(&self.check_terrain(from, to), Hazard::FallOffCliff)
        }
    }

    /// The pieces that `m` destroys.
    pub fn casualties(&self, m: Move) -> (r: Vec<Piece>)
        requires
            N < 0x8000_0000,
            spec_well_placed(*self, m),
        ensures
            r@ == spec_casualties(*self, m),
    {
        let (from, to) = move_ends(m);
        let mut r: Vec<Piece> = Vec::new();
        if self.mover_dies(m) {
            r.push(self.tile(from).piece.unwrap());
        }
        let ghost mover_part = r@;
        if is_push_move(m) {
            let defender = self.tile(to).piece.unwrap();
            match self.landing(m) {
                None => {
                    r.push(defender);
                },
                Some(l) => {
                    if let Some(occupant) = self.tile(l).piece {
                        r.push(defender);
                        r.push(occupant);
                    }
                },
            }
        }
        assert(r@ =~= spec_casualties(*self, m));
        r
    }

    /// The hazards of a push: pushing a teammate, then the pushed piece
    /// leaving the board or colliding with a piece of its own team.
    pub fn check_push(&self, m: Move) -> (r: Vec<Hazard>)
        requires
            N < 0x8000_0000,
            spec_well_placed(*self, m),
            is_push(m),
        ensures
            r@ == spec_push_hazards(*self, m),
    {
        let (from, to) = move_ends(m);
        let mover = self.tile(from).piece.unwrap();
        let defender = self.tile(to).piece.unwrap();
        let mut r: Vec<Hazard> = Vec::new();
        if defender.team == mover.team {
            r.push(Hazard::PushTeammate);
        }
        match self.landing(m) {
            None => {
                r.push(Hazard::FallOffBoard);
            },
            Some(l) => {
                if let Some(occupant) = self.tile(l).piece {
                    if occupant.team == defender.team {
                        r.push(Hazard::FriendlyBonk);
                    }
                }
            },
        }
        assert(r@ =~= spec_push_hazards(*self, m));
        r
    }

    /// All the hazards of `m`, in the order they are settled.
    pub fn hazards(&self, m: Move) -> (r: Vec<Hazard>)
        requires
            N < 0x8000_0000,
            spec_well_placed(*self, m),
        ensures
            r@ == spec_hazards(*self, m),
    {
        let (from, to) = move_ends(m);
        let mover = self.tile(from).piece.unwrap();
        let mut r: Vec<Hazard> = if mover.kind == PieceKind::Knight {
            Vec::new()
        } else {
            self.check_terrain(from, to)
        };
        if is_push_move(m) {
            let mut push = self.check_push(m);
            r.append(&mut push);
        }
        if contains_king(&self.casualties(m), mover.team) {
            r.push(Hazard::KingSuicide);
        }
        assert(r@ =~= spec_hazards(*self, m));
        r
    }
}

impl<const N: usize> Board<N> {
    /// Whether `p` lies on the board.
    pub fn on_board(p: Position) -> (r: bool)
        requires
            N < 0x8000_0000,
        ensures
            r == Self::in_bounds(p),
    {
        0 <= p.x && p.x < N as i32 && 0 <= p.y && p.y < N as i32
    }

    /// Checks the move of the piece on `from` to `to` (`push` being the
    /// square a Knight pushes onto) and finds its hazards, without asking
    /// anything.
    pub fn plan(&self, from: Position, to: Position, push: Option<Position>) -> (r: Result<
        (Move, Vec<Hazard>),
        InvalidMove,
    >)
        requires
            N < 0x8000_0000,
        ensures
            match r {
                Ok((m, h)) => spec_plan(*self, from, to, push) == Ok::<(Move, Seq<Hazard>), InvalidMove>((m, h@)),
                Err(e) => spec_plan(*self, from, to, push) == Err::<(Move, Seq<Hazard>), InvalidMove>(e),
            },
    {
        if !Self::on_board(from) {
            return Err(InvalidMove::OutOfBounds(from));
        }
        if !Self::on_board(to) {
            return Err(InvalidMove::OutOfBounds(to));
        }
        let piece = match self.tile(from).piece {
            None => {
                return Err(InvalidMove::EmptyPosition(from));
            },
            Some(p) => p,
        };
        if piece.team != self.turn {
            return Err(InvalidMove::WrongTeam(self.turn, from, piece.team));
        }
        if !piece.kind.can_move(from, to) {
            return Err(InvalidMove::InvalidTrajectory(piece.kind, from, to));
        }
        proof {
            if piece.kind != PieceKind::Knight {
                lemma_shape_is_compass(piece.kind, from, to);
            }
        }
        let m = if self.tile(to).piece.is_none() {
            Move::Move { from, to }
        } else if piece.kind == PieceKind::Knight {
            match push {
                None => {
                    return Err(InvalidMove::MissingPush(to));
                },
                Some(l) => {
                    if to.moore_distance(l) != 1 {
                        return Err(InvalidMove::InvalidPush(to, l));
                    }
                    Move::KnightPush { from, to, push: l }
                },
            }
        } else {
            Move::Push { from, to }
        };
        let h = self.hazards(m);
        Ok((m, h))
    }

    /// Resolves the move of the piece on `from` to `to` (`push` being the
    /// square a Knight pushes onto): checks it, then settles its hazards
    /// with the player under `rules`. The board is not changed.
    pub fn resolve<I: IO>(
        &self,
        rules: &Rules,
        io: &mut I,
        from: Position,
        to: Position,
        push: Option<Position>,
    ) -> (r: Result<Move, InvalidMove>)
        requires
            N < 0x8000_0000,
        ensures
            match spec_plan(*self, from, to, push) {
                Err(e) => r == Err::<Move, InvalidMove>(e),
                Ok((m, h)) => {
                    &&& r is Ok ==> r == Ok::<Move, InvalidMove>(m)
                    &&& spec_settled(
                        *rules,
                        h,
                        match r {
                            Ok(_) => Ok(()),
                            Err(e) => Err(e),
                        },
                    )
                },
            },
    {
        let (m, h) = self.plan(from, to, push)?;
        match rules.confirm(&h, io) {
            Ok(()) => Ok(m),
            Err(e) => Err(e),
        }
    }
}

/// `m` is what checking a move on `board` gives (`Board::plan`), or a
/// resignation.
pub open spec fn is_resolved_on<const N: usize>(board: Board<N>, m: Move) -> bool {
    match m {
        Move::Move { from, to } => spec_plan(board, from, to, None) is Ok && spec_plan(
            board,
            from,
            to,
            None,
        )->Ok_0.0 == m,
        Move::Push { from, to } => spec_plan(board, from, to, None) is Ok && spec_plan(
            board,
            from,
            to,
            None,
        )->Ok_0.0 == m,
        Move::KnightPush { from, to, push } => spec_plan(board, from, to, Some(push)) is Ok
            && spec_plan(board, from, to, Some(push))->Ok_0.0 == m,
        Move::Resign => true,
    }
}

/// The piece on square `q` once `m` is applied to `board`: the origin is
/// left empty; the mover stands on the destination unless it fell down a
/// cliff; a pushed piece stands on its landing square, unless that square
/// was occupied, in which case both pieces are gone.
pub open spec fn spec_piece_after<const N: usize>(board: Board<N>, m: Move, q: Position) -> Option<
    Piece,
> {
    if m is Resign {
        board.tile_at(q).piece
    } else if q == move_from(m) {
        None
    } else if q == move_to(m) {
        if spec_mover_dies(board, m) {
            None
        } else {
            Some(spec_mover(board, m))
        }
    } else if is_push(m) && spec_landing::<N>(m) == Some(q) {
        if board.tile_at(q).piece is Some {
            None
        } else {
            Some(spec_defender(board, m))
        }
    } else {
        board.tile_at(q).piece
    }
}

/// The state of the game once `m` is applied to `board`. A resignation
/// gives the game to the other side. A move that destroys the opposing King
/// wins; else one that destroys the mover's own King loses.
pub open spec fn spec_game_state<const N: usize>(board: Board<N>, m: Move) -> GameState {
    if m is Resign {
        GameState::Won(board.turn.spec_other())
    } else {
        let team = spec_mover(board, m).team;
        let lost = spec_casualties(board, m);
        if has_king(lost, team.spec_other()) {
            GameState::Won(team)
        } else if has_king(lost, team) {
            GameState::Won(team.spec_other())
        } else {
            GameState::Ongoing
        }
    }
}

/// The two squares of a Knight's move are two steps apart.
proof fn lemma_knight_distance(from: Position, to: Position)
    requires
        spec_can_move(PieceKind::Knight, from, to),
    ensures
        spec_moore_distance(from, to) == 2,
{
    let dx = abs(from.x - to.x);
    let dy = abs(from.y - to.y);
    assert((dx == 1 && dy == 2) || (dx == 2 && dy == 1)) by (nonlinear_arith)
        requires
            dx >= 0,
            dy >= 0,
            dx * dy == 2,
    ;
}

/// A resolved move is well placed, and its origin, destination and landing
/// square are three different squares.
proof fn lemma_resolved_is_well_placed<const N: usize>(board: Board<N>, m: Move)
    requires
        is_resolved_on(board, m),
        !(m is Resign),
    ensures
        spec_well_placed(board, m),
        move_from(m) != move_to(m),
        spec_landing::<N>(m) is Some ==> spec_landing::<N>(m)->0 != move_from(m)
            && spec_landing::<N>(m)->0 != move_to(m),
        spec_mover(board, m).team == board.turn,
{
    let from = move_from(m);
    let to = move_to(m);
    let kind = spec_mover(board, m).kind;
    if kind != PieceKind::Knight {
        lemma_shape_is_compass(kind, from, to);
    } else {
        lemma_knight_distance(from, to);
    }
}

impl<const N: usize> Board<N> {
    /// Applies a resolved move: moves, pushes and removes pieces as the move
    /// says, then gives the turn to the other side. A resignation changes no
    /// tile and keeps the turn.
    pub fn make_move_unchecked(&mut self, m: Move) -> (r: Result<GameState, InvalidMove>)
        requires
            N < 0x8000_0000,
            is_resolved_on(*old(self), m),
        ensures
            r == Ok::<GameState, InvalidMove>(spec_game_state(*old(self), m)),
            final(self).turn == (if m is Resign {
                old(self).turn
            } else {
                old(self).turn.spec_other()
            }),
            forall|q: Position|
                Self::in_bounds(q) ==> #[trigger] final(self).tile_at(q) == (Tile {
                    piece: spec_piece_after(*old(self), m, q),
                    ..old(self).tile_at(q)
                }),
    {
        if let Move::Resign = m {
            return Ok(GameState::Won(self.turn.other()));
        }
        proof {
            lemma_resolved_is_well_placed(*self, m);
        }
        let ghost before = *self;
        let (from, to) = move_ends(m);
        let mover = self.tile(from).piece.unwrap();
        let dies = self.mover_dies(m);
        let lost = self.casualties(m);
        let state = if contains_king(&lost, mover.team.other()) {
            GameState::Won(mover.team)
        } else if contains_king(&lost, mover.team) {
            GameState::Won(mover.team.other())
        } else {
            GameState::Ongoing
        };
        if is_push_move(m) {
            let defender = self.tile(to).piece.unwrap();
            if let Some(l) = self.landing(m) {
                if self.tile(l).piece.is_some() {
                    self.set_piece(l, None);
                } else {
                    self.set_piece(l, Some(defender));
                }
            }
        }
        let ghost pushed = *self;
        assert(forall|q: Position|
            Self::in_bounds(q) && q != from && q != to ==> #[trigger] pushed.tile_at(q) == (Tile {
                piece: spec_piece_after(before, m, q),
                ..before.tile_at(q)
            }));
        self.set_piece(from, None);
        self.set_piece(to, if dies { None } else { Some(mover) });
        let ghost placed = *self;
        assert forall|q: Position| Self::in_bounds(q) implies #[trigger] placed.tile_at(q) == (Tile {
            piece: spec_piece_after(before, m, q),
            ..before.tile_at(q)
        }) by {
            if q != from && q != to {
                assert(pushed.tile_at(q) == (Tile {
                    piece: spec_piece_after(before, m, q),
                    ..before.tile_at(q)
                }));
            }
        }
        self.turn = self.turn.other();
        assert(forall|q: Position| #[trigger] self.tile_at(q) == placed.tile_at(q));
        Ok(state)
    }
}

/// What the player is asked for when a move is read.
#[derive(Debug, Clone, Copy, PartialEq, Eq, Structural)]
pub enum Question {
    /// The square of the piece to move.
    Piece,
    /// The square to move it to.
    Destination,
    /// The square a Knight pushes onto.
    PushTarget,
}

/// The text of question `q`.
pub open spec fn spec_question(q: Question) -> Seq<char> {
    match q {
        Question::Piece => "Which piece would you like to move?"@,
        Question::Destination => "Where would you like to move that piece?"@,
        Question::PushTarget => "Where would you like to push that piece?"@,
    }
}

/// The text of question `q`.
pub fn question(q: Question) -> (r: &'static str)
    ensures
        r@ == spec_question(q),
{
    match q {
        Question::Piece => "Which piece would you like to move?",
        Question::Destination => "Where would you like to move that piece?",
        Question::PushTarget => "Where would you like to push that piece?",
    }
}

/// What `str::to_lowercase` makes of the characters `s`.
pub uninterp spec fn lower_of(s: Seq<char>) -> Seq<char>;

/// Relies on `str::to_lowercase`: the lower case of a text depends on its
/// characters alone.
#[verifier::external_body]
fn to_lowercase(s: &str) -> (r: String)
    ensures
        r@ == lower_of(s@),
{
    s.to_lowercase()
}

/// What the player's answer `input`, whose lower case is `lowered`, gives
/// when a square is asked for: "cancel" in any case cancels; otherwise the
/// square it names, which must lie on the board when `check_bounds` is set.
pub open spec fn spec_read_position<const N: usize>(
    input: Seq<char>,
    lowered: Seq<char>,
    check_bounds: bool,
) -> Result<Position, InvalidMove> {
    if lowered == "cancel"@ {
        Err(InvalidMove::Cancelled(Cancelled))
    } else {
        match spec_parse_position(input) {
            Err(e) => Err(InvalidMove::InvalidPosition(e)),
            Ok(p) => if check_bounds && !Board::<N>::in_bounds(p) {
                Err(InvalidMove::OutOfBounds(p))
            } else {
                Ok(p)
            },
        }
    }
}

impl<const N: usize> Board<N> {
    /// Reads the answer `input` (whose lower case is `lowered`) to a request
    /// for a square.
    pub fn read_position(input: &str, lowered: &str, check_bounds: bool) -> (r: Result<
        Position,
        InvalidMove,
    >)
        requires
            N < 0x8000_0000,
        ensures
            r == spec_read_position::<N>(input@, lowered@, check_bounds),
    {
        if str_eq(lowered, "cancel") {
            return Err(InvalidMove::Cancelled(Cancelled));
        }
        match Position::parse(input) {
            Err(e) => Err(InvalidMove::InvalidPosition(e)),
            Ok(p) => if check_bounds && !Self::on_board(p) {
                Err(InvalidMove::OutOfBounds(p))
            } else {
                Ok(p)
            },
        }
    }

    /// Shows the question `q`, then reads one square from the player.
    fn input_position<I: IO>(io: &mut I, check_bounds: bool, q: Question) -> (r: Result<
        Position,
        InvalidMove,
    >)
        requires
            N < 0x8000_0000,
        ensures
            exists|input: Seq<char>| r == spec_read_position::<N>(input, lower_of(input), check_bounds),
    {
        io.output(question(q));
        let input = io.input();
        let lowered = to_lowercase(input.as_str());
        Self::read_position(input.as_str(), lowered.as_str(), check_bounds)
    }

    /// Whether moving the piece on `from` to `to` is a Knight's push, so
    /// that a square to push onto must be asked for: a Knight of the side to
    /// move, a Knight-shaped move, and a piece on `to`, on the board.
    pub fn needs_push(&self, from: Position, to: Position) -> (r: bool)
        requires
            N < 0x8000_0000,
        ensures
            r == (Self::in_bounds(from) && Self::in_bounds(to) && self.tile_at(from).piece
                == Some(Piece { team: self.turn, kind: PieceKind::Knight }) && spec_can_move(
                PieceKind::Knight,
                from,
                to,
            ) && self.tile_at(to).piece is Some),
    {
        if !Self::on_board(from) || !Self::on_board(to) {
            return false;
        }
        match self.tile(from).piece {
            Some(p) => p.team == self.turn && p.kind == PieceKind::Knight
                && PieceKind::Knight.can_move(from, to) && self.tile(to).piece.is_some(),
            None => false,
        }
    }

    /// Asks the player for a move: the square of a piece of the side to
    /// move, the square to move it to, and, when `needs_push` holds, the
    /// square to push onto; then resolves it under `rules`. A move that
    /// comes back is a legal move on this board none of whose hazards is
    /// denied; an empty square or a piece of the other side is reported for
    /// what it is.
    pub fn get_move_from<I: IO>(&self, rules: &Rules, io: &mut I) -> (r: Result<Move, InvalidMove>)
        requires
            N < 0x8000_0000,
        ensures
            r is Ok ==> is_legal(*self, r->Ok_0) && none_denied(
                *rules,
                spec_hazards(*self, r->Ok_0),
            ),
            r matches Err(InvalidMove::EmptyPosition(p)) ==> Self::in_bounds(p)
                && self.tile_at(p).piece is None,
            r matches Err(InvalidMove::WrongTeam(t, p, u)) ==> t == self.turn && u != t
                && Self::in_bounds(p) && self.tile_at(p).piece is Some && self.tile_at(
                p,
            ).piece->0.team == u,
    {
        let from = Self::input_position(io, true, Question::Piece)?;
        let piece = match self.tile(from).piece {
            None => {
                return Err(InvalidMove::EmptyPosition(from));
            },
            Some(p) => p,
        };
        if self.turn != piece.team {
            return Err(InvalidMove::WrongTeam(self.turn, from, piece.team));
        }
        let to = Self::input_position(io, false, Question::Destination)?;
        let push = if self.needs_push(from, to) {
            Some(Self::input_position(io, false, Question::PushTarget)?)
        } else {
            None
        };
        let r = self.resolve(rules, io, from, to, push);
        proof {
            if r is Ok {
                let m = r->Ok_0;
                let h = spec_plan(*self, from, to, push)->Ok_0.1;
                assert(spec_plan(*self, from, to, push)->Ok_0.0 == m);
                match m {
                    Move::Move { .. } => {},
                    Move::Push { .. } => {},
                    Move::KnightPush { from: f, to: t, push: l } => {
                        assert(push == Some(l));
                    },
                    Move::Resign => {},
                }
            }
        }
        r
    }
}

/// Walking over terrain never meets the loss of a King.
proof fn lemma_terrain_no_king_hazard<const N: usize>(
    board: Board<N>,
    cur: Position,
    sx: int,
    sy: int,
    steps: nat,
    climbed: bool,
)
    ensures
        !terrain_walk(board, cur, sx, sy, steps, climbed).contains(Hazard::KingSuicide),
    decreases steps,
{
    if steps > 0 {
        let next = Position { x: (cur.x + sx) as i32, y: (cur.y + sy) as i32 };
        let a = board.tile_at(cur).height as int;
        let b = board.tile_at(next).height as int;
        let c2 = climbed || b == a + 1;
        lemma_terrain_no_king_hazard(board, next, sx, sy, (steps - 1) as nat, c2);
        let here = step_hazards(a, b, climbed);
        let rest = terrain_walk(board, next, sx, sy, (steps - 1) as nat, c2);
        assert(!here.contains(Hazard::KingSuicide));
        assert((here + rest).contains(Hazard::KingSuicide) ==> here.contains(Hazard::KingSuicide)
            || rest.contains(Hazard::KingSuicide)) by {
            if (here + rest).contains(Hazard::KingSuicide) {
                let i = choose|i: int|
                    0 <= i < (here + rest).len() && (here + rest)[i] == Hazard::KingSuicide;
                if i >= here.len() {
                    assert(rest[i - here.len()] == Hazard::KingSuicide);
                }
            }
        }
    }
}

/// A move that destroys the opposing King wins the game for the mover's
/// side, whatever else it destroys; and a move asks to confirm the loss of a
/// King only when it is the mover's own.
pub proof fn lemma_enemy_king_loss_wins<const N: usize>(board: Board<N>, m: Move)
    requires
        !(m is Resign),
    ensures
        has_king(spec_casualties(board, m), spec_mover(board, m).team.spec_other())
            ==> spec_game_state(board, m) == GameState::Won(spec_mover(board, m).team),
        spec_hazards(board, m).contains(Hazard::KingSuicide) <==> has_king(
            spec_casualties(board, m),
            spec_mover(board, m).team,
        ),
{
    let terrain = if spec_mover(board, m).kind == PieceKind::Knight {
        Seq::empty()
    } else {
        spec_terrain(board, move_from(m), move_to(m))
    };
    let push = if is_push(m) {
        spec_push_hazards(board, m)
    } else {
        Seq::empty()
    };
    let king = spec_king_hazard(board, m);
    let from = move_from(m);
    let to = move_to(m);
    lemma_terrain_no_king_hazard(
        board,
        from,
        sign(to.x - from.x),
        sign(to.y - from.y),
        spec_moore_distance(from, to) as nat,
        false,
    );
    assert(!terrain.contains(Hazard::KingSuicide));
    assert(!push.contains(Hazard::KingSuicide));
    let all = terrain + push + king;
    assert(all == spec_hazards(board, m));
    if all.contains(Hazard::KingSuicide) {
        let i = choose|i: int| 0 <= i < all.len() && all[i] == Hazard::KingSuicide;
        if i < terrain.len() {
            assert(terrain[i] == Hazard::KingSuicide);
        } else if i < terrain.len() + push.len() {
            assert(push[i - terrain.len()] == Hazard::KingSuicide);
        } else {
            assert(king[i - terrain.len() - push.len()] == Hazard::KingSuicide);
        }
    }
    if has_king(spec_casualties(board, m), spec_mover(board, m).team) {
        assert(all[all.len() - 1] == Hazard::KingSuicide);
    }
}

/// A piece of the side to move whose kind cannot make the shape from
/// `from` to `to` is refused for that, whatever push square is given.
pub proof fn lemma_shape_refused<const N: usize>(
    board: Board<N>,
    from: Position,
    to: Position,
    push: Option<Position>,
)
    requires
        Board::<N>::in_bounds(from),
        Board::<N>::in_bounds(to),
        board.tile_at(from).piece is Some,
        board.tile_at(from).piece->0.team == board.turn,
        !spec_can_move(board.tile_at(from).piece->0.kind, from, to),
    ensures
        spec_plan(board, from, to, push) == Err::<(Move, Seq<Hazard>), InvalidMove>(
            InvalidMove::InvalidTrajectory(board.tile_at(from).piece->0.kind, from, to),
        ),
{
}

/// A Knight of the side to move pushing a piece onto a square that is not
/// next to the pushed one is refused as an invalid push target.
pub proof fn lemma_knight_push_target<const N: usize>(
    board: Board<N>,
    from: Position,
    to: Position,
    push: Position,
)
    requires
        Board::<N>::in_bounds(from),
        Board::<N>::in_bounds(to),
        board.tile_at(from).piece == Some(Piece { team: board.turn, kind: PieceKind::Knight }),
        spec_can_move(PieceKind::Knight, from, to),
        board.tile_at(to).piece is Some,
        spec_moore_distance(to, push) != 1,
    ensures
        spec_plan(board, from, to, Some(push)) == Err::<(Move, Seq<Hazard>), InvalidMove>(
            InvalidMove::InvalidPush(to, push),
        ),
{
}

/// A push whose piece would land off the board asks about the fall off the
/// board; applied, it leaves the origin empty, puts the mover on `to` when
/// it does not fall down a cliff on its way, and changes no other square.
pub proof fn lemma_push_off_board<const N: usize>(board: Board<N>, m: Move)
    requires
        is_resolved_on(board, m),
        m is Push,
        spec_landing::<N>(m) is None,
    ensures
        spec_hazards(board, m).contains(Hazard::FallOffBoard),
        spec_piece_after(board, m, move_from(m)) is None,
        !spec_mover_dies(board, m) ==> spec_piece_after(board, m, move_to(m)) == Some(
            spec_mover(board, m),
        ),
        forall|q: Position|
            q != move_from(m) && q != move_to(m) ==> #[trigger] spec_piece_after(board, m, q)
                == board.tile_at(q).piece,
{
    lemma_resolved_is_well_placed(board, m);
    let terrain = if spec_mover(board, m).kind == PieceKind::Knight {
        Seq::empty()
    } else {
        spec_terrain(board, move_from(m), move_to(m))
    };
    let push = spec_push_hazards(board, m);
    let all = terrain + push + spec_king_hazard(board, m);
    assert(all == spec_hazards(board, m));
    let k = push.len() - 1;
    assert(push[k] == Hazard::FallOffBoard);
    assert(all[terrain.len() + k] == Hazard::FallOffBoard);
}

/// `m` is a move the side to move can make on `board`, hazards aside.
pub open spec fn is_legal<const N: usize>(board: Board<N>, m: Move) -> bool {
    !(m is Resign) && is_resolved_on(board, m)
}

/// The `i`-th of the 8 neighbouring offsets.
pub open spec fn spec_offset(i: int) -> (int, int) {
    if i == 0 {
        (-1, -1)
    } else if i == 1 {
        (-1, 0)
    } else if i == 2 {
        (-1, 1)
    } else if i == 3 {
        (0, -1)
    } else if i == 4 {
        (0, 1)
    } else if i == 5 {
        (1, -1)
    } else if i == 6 {
        (1, 0)
    } else {
        (1, 1)
    }
}

fn offset(i: usize) -> (r: (i32, i32))
    requires
        i < 8,
    ensures
        r.0 == spec_offset(i as int).0,
        r.1 == spec_offset(i as int).1,
{
    if i == 0 {
        (-1, -1)
    } else if i == 1 {
        (-1, 0)
    } else if i == 2 {
        (-1, 1)
    } else if i == 3 {
        (0, -1)
    } else if i == 4 {
        (0, 1)
    } else if i == 5 {
        (1, -1)
    } else if i == 6 {
        (1, 0)
    } else {
        (1, 1)
    }
}

/// Which of the 8 offsets leads from `to` to `l`; 8 if none does.
pub open spec fn offset_index(to: Position, l: Position) -> int {
    let dx = l.x - to.x;
    let dy = l.y - to.y;
    if dx == -1 && dy == -1 {
        0
    } else if dx == -1 && dy == 0 {
        1
    } else if dx == -1 && dy == 1 {
        2
    } else if dx == 0 && dy == -1 {
        3
    } else if dx == 0 && dy == 1 {
        4
    } else if dx == 1 && dy == -1 {
        5
    } else if dx == 1 && dy == 0 {
        6
    } else if dx == 1 && dy == 1 {
        7
    } else {
        8
    }
}

impl<const N: usize> Board<N> {
    /// The moves from `from` to `to` that the side to move can make: at most
    /// one plain move or push, or a Knight's pushes onto each neighbour of
    /// `to`.
    pub fn moves_between(&self, from: Position, to: Position) -> (r: Vec<Move>)
        requires
            N < 0x8000_0000,
            Self::in_bounds(from),
            Self::in_bounds(to),
        ensures
            forall|m: Move|
                #![trigger r@.contains(m)]
                #![trigger is_legal(*self, m)]
                is_legal(*self, m) && move_from(m) == from && move_to(m) == to <==> r@.contains(m),
    {
        let mut r: Vec<Move> = Vec::new();
        if let Ok((m, _)) = self.plan(from, to, None) {
            r.push(m);
        }
        let ghost plain = r@;
        let mut i: usize = 0;
        while i < 8
            invariant
                N < 0x8000_0000,
                Self::in_bounds(from),
                Self::in_bounds(to),
                i <= 8,
                plain.len() <= 1,
                plain.len() == 1 <==> spec_plan(*self, from, to, None) is Ok,
                plain.len() == 1 ==> plain[0] == spec_plan(*self, from, to, None)->Ok_0.0,
                r@.len() >= plain.len(),
                r@.subrange(0, plain.len() as int) == plain,
                forall|k: int|
                    plain.len() <= k < r@.len() ==> (#[trigger] r@[k]) is KnightPush && is_legal(
                        *self,
                        r@[k],
                    ) && move_from(r@[k]) == from && move_to(r@[k]) == to,
                forall|m: Move|
                    m is KnightPush && #[trigger] is_legal(*self, m) && move_from(m) == from
                        && move_to(m) == to && offset_index(to, m->push) < i ==> r@.contains(m),
            decreases 8 - i,
        {
            let (dx, dy) = offset(i);
            let l = Position { x: to.x + dx, y: to.y + dy };
            let ghost before = r@;
            if let Ok((m, _)) = self.plan(from, to, Some(l)) {
                if let Move::KnightPush { .. } = m {
                    r.push(m);
                    assert(r@[before.len() as int] == m);
                    assert(r@.subrange(0, plain.len() as int) =~= before.subrange(
                        0,
                        plain.len() as int,
                    ));
                }
            }
            assert(offset_index(to, l) == i);
            assert forall|m: Move|
                m is KnightPush && #[trigger] is_legal(*self, m) && move_from(m) == from
                    && move_to(m) == to && offset_index(to, m->push) < i + 1 implies r@.contains(
                m,
            ) by {
                if offset_index(to, m->push) < i {
                    assert(before.contains(m));
                    let k = choose|k: int| 0 <= k < before.len() && before[k] == m;
                    assert(r@[k] == m);
                } else {
                    assert(m->push == l);
                    assert(spec_plan(*self, from, to, Some(l))->Ok_0.0 == m);
                    assert(r@[r@.len() - 1] == m);
                }
            }
            i = i + 1;
        }
        assert forall|m: Move|
            is_legal(*self, m) && move_from(m) == from && move_to(m) == to implies r@.contains(
                m,
            ) by {
            if m is KnightPush {
                assert(spec_moore_distance(to, m->push) == 1);
                assert(offset_index(to, m->push) < 8);
            } else {
                assert(plain.len() == 1);
                assert(r@[0] == plain[0]);
            }
        }
        assert forall|m: Move| #[trigger] r@.contains(m) implies is_legal(*self, m) && move_from(m) == from
            && move_to(m) == to by {
            let k = choose|k: int| 0 <= k < r@.len() && r@[k] == m;
            if k < plain.len() {
                assert(r@[k] == plain[k]);
            }
        }
        r
    }
}

proof fn lemma_contains_append<T>(a: Seq<T>, b: Seq<T>, x: T)
    ensures
        (a + b).contains(x) <==> a.contains(x) || b.contains(x),
{
    if a.contains(x) {
        let k = choose|k: int| 0 <= k < a.len() && a[k] == x;
        assert((a + b)[k] == x);
    }
    if b.contains(x) {
        let k = choose|k: int| 0 <= k < b.len() && b[k] == x;
        assert((a + b)[a.len() + k] == x);
    }
    if (a + b).contains(x) {
        let k = choose|k: int| 0 <= k < (a + b).len() && (a + b)[k] == x;
        if k >= a.len() {
            assert(b[k - a.len()] == x);
        }
    }
}

/// A legal move stays on the board.
proof fn lemma_legal_in_bounds<const N: usize>(board: Board<N>, m: Move)
    requires
        is_legal(board, m),
    ensures
        Board::<N>::in_bounds(move_from(m)),
        Board::<N>::in_bounds(move_to(m)),
{
}

impl<const N: usize> Board<N> {
    /// The moves that the side to move can make with the piece on `from`.
    pub fn moves_from(&self, from: Position) -> (r: Vec<Move>)
        requires
            N < 0x8000_0000,
            Self::in_bounds(from),
        ensures
            forall|m: Move|
                #![trigger r@.contains(m)]
                #![trigger is_legal(*self, m)]
                is_legal(*self, m) && move_from(m) == from <==> r@.contains(m),
    {
        let mut r: Vec<Move> = Vec::new();
        let mut y: usize = 0;
        while y < N
            invariant
                N < 0x8000_0000,
                Self::in_bounds(from),
                y <= N,
                forall|m: Move| #[trigger] r@.contains(m) ==> is_legal(*self, m) && move_from(m) == from,
                forall|m: Move|
                    #[trigger] is_legal(*self, m) && move_from(m) == from && move_to(m).y < y
                        ==> r@.contains(m),
            decreases N - y,
        {
            let mut x: usize = 0;
            while x < N
                invariant
                    N < 0x8000_0000,
                    Self::in_bounds(from),
                    y < N,
                    x <= N,
                    forall|m: Move| #[trigger] r@.contains(m) ==> is_legal(*self, m) && move_from(m) == from,
                    forall|m: Move|
                        #[trigger] is_legal(*self, m) && move_from(m) == from && (move_to(m).y < y
                            || (move_to(m).y == y && move_to(m).x < x)) ==> r@.contains(m),
                decreases N - x,
            {
                let to = Position { x: x as i32, y: y as i32 };
                let mut found = self.moves_between(from, to);
                let ghost before = r@;
                let ghost here = found@;
                r.append(&mut found);
                assert forall|m: Move| #[trigger] r@.contains(m) implies is_legal(*self, m) && move_from(m)
                    == from by {
                    lemma_contains_append(before, here, m);
                    if !before.contains(m) {
                        assert(here.contains(m));
                        assert(is_legal(*self, m) && move_from(m) == from && move_to(m) == to);
                    }
                }
                assert forall|m: Move|
                    #[trigger] is_legal(*self, m) && move_from(m) == from && (move_to(m).y < y || (
                    move_to(m).y == y && move_to(m).x < x + 1)) implies r@.contains(m) by {
                    lemma_contains_append(before, here, m);
                }
                x = x + 1;
            }
            y = y + 1;
        }
        proof {
            assert forall|m: Move| is_legal(*self, m) && move_from(m) == from implies r@.contains(
                m,
            ) by {
                lemma_legal_in_bounds(*self, m);
            }
        }
        r
    }

    /// Every move that the side to move can make, hazards aside; a Knight's
    /// push is listed once for each square it may push onto.
    pub fn get_legal_moves(&self) -> (r: Vec<Move>)
        requires
            N < 0x8000_0000,
        ensures
            forall|m: Move|
                #![trigger r@.contains(m)]
                #![trigger is_legal(*self, m)]
                is_legal(*self, m) <==> r@.contains(m),
    {
        let mut r: Vec<Move> = Vec::new();
        let mut y: usize = 0;
        while y < N
            invariant
                N < 0x8000_0000,
                y <= N,
                forall|m: Move| #[trigger] r@.contains(m) ==> is_legal(*self, m),
                forall|m: Move| #[trigger] is_legal(*self, m) && move_from(m).y < y ==> r@.contains(m),
            decreases N - y,
        {
            let mut x: usize = 0;
            while x < N
                invariant
                    N < 0x8000_0000,
                    y < N,
                    x <= N,
                    forall|m: Move| #[trigger] r@.contains(m) ==> is_legal(*self, m),
                    forall|m: Move|
                        #[trigger] is_legal(*self, m) && (move_from(m).y < y || (move_from(m).y == y
                            && move_from(m).x < x)) ==> r@.contains(m),
                decreases N - x,
            {
                let from = Position { x: x as i32, y: y as i32 };
                let mut found = self.moves_from(from);
                let ghost before = r@;
                let ghost here = found@;
                r.append(&mut found);
                assert forall|m: Move| #[trigger] r@.contains(m) implies is_legal(*self, m) by {
                    lemma_contains_append(before, here, m);
                    if !before.contains(m) {
                        assert(here.contains(m));
                        assert(is_legal(*self, m) && move_from(m) == from);
                    }
                }
                assert forall|m: Move|
                    #[trigger] is_legal(*self, m) && (move_from(m).y < y || (move_from(m).y == y
                        && move_from(m).x < x + 1)) implies r@.contains(m) by {
                    lemma_contains_append(before, here, m);
                }
                x = x + 1;
            }
            y = y + 1;
        }
        proof {
            assert forall|m: Move| is_legal(*self, m) implies r@.contains(m) by {
                lemma_legal_in_bounds(*self, m);
            }
        }
        r
    }
}

fn is_push_move(m: Move) -> (r: bool)
    ensures
        r == is_push(m),
{
    match m {
        Move::Push { .. } | Move::KnightPush { .. } => true,
        _ => false,
    }
}

} // verus!
