//! Pieces, their movement shapes, and the tiles of the board.
use vstd::prelude::*;

use super::{abs, Position, Team};
use crate::helpers::{push_char, reset, reset_seq, Color};

verus! {

/// What a piece is; it decides the shape of its moves and nothing else.
#[derive(Debug, Clone, Copy, PartialEq, Eq, Structural)]
pub enum PieceKind {
    Pawn,
    Bishop,
    Knight,
    Rook,
    King,
}

/// Whether a piece of `kind` may go from `from` to `to` by the shape of the
/// move alone (occupants and terrain aside).
pub open spec fn spec_can_move(kind: PieceKind, from: Position, to: Position) -> bool {
    let dx = abs(from.x - to.x);
    let dy = abs(from.y - to.y);
    match kind {
        PieceKind::Pawn | PieceKind::King => (dx == 1 && dy <= 1) || (dy == 1 && dx <= 1),
        PieceKind::Bishop => dx == dy && dx != 0,
        PieceKind::Knight => dx * dy == 2,
        PieceKind::Rook => (dx == 0) != (dy == 0),
    }
}

impl PieceKind {
    /// Pawn and King: one step to any of the 8 neighbours. Bishop: any
    /// nonzero diagonal distance. Knight: the (1, 2) L-shape. Rook: any
    /// nonzero orthogonal distance.
    pub fn can_move(self, from: Position, to: Position) -> (r: bool)
        ensures
            r == spec_can_move(self, from, to),
    {
        let dx = super::abs_diff(from.x, to.x);
        let dy = super::abs_diff(from.y, to.y);
        match self {
            PieceKind::Pawn | PieceKind::King => {
                let m = if dx >= dy {
                    dx
                } else {
                    dy
                };
                m == 1
            },
            PieceKind::Bishop => dx == dy && dx != 0,
            PieceKind::Knight => {
                assert(dx as u64 * dy as u64 <= 0xffff_ffffu64 * 0xffff_ffffu64) by (nonlinear_arith)
                    requires
                        dx <= 0xffff_ffffu32,
                        dy <= 0xffff_ffffu32,
                ;
                let product: u64 = dx as u64 * dy as u64;
                product == 2
            },
            PieceKind::Rook => (dx == 0) != (dy == 0),
        }
    }
}

/// A King moves exactly as a Pawn does.
pub proof fn lemma_king_moves_like_pawn(from: Position, to: Position)
    ensures
        spec_can_move(PieceKind::King, from, to) == spec_can_move(PieceKind::Pawn, from, to),
{
}

/// A piece: its side and its kind.
#[derive(Debug, Clone, Copy, PartialEq, Eq, Structural)]
pub struct Piece {
    pub team: Team,
    pub kind: PieceKind,
}

/// What a square is, whoever stands on it: an ordinary square, or the home
/// square of a team.
#[derive(Debug, Clone, Copy, PartialEq, Eq, Structural)]
pub enum TileKind {
    Normal,
    Goal(Team),
}

impl Default for TileKind {
    fn default() -> (r: Self)
        ensures
            r == TileKind::Normal,
    {
        TileKind::Normal
    }
}

/// A square of the board: its height (0, 1 or 2), its kind, and at most one
/// piece.
#[derive(Debug, Clone, Copy, PartialEq, Eq, Structural)]
pub struct Tile {
    pub height: u8,
    pub kind: TileKind,
    pub piece: Option<Piece>,
}

/// Whether a piece on a goal square is drawn in the colours of the other
/// team.
pub const TILE_FLIPPING: bool = true;

/// The colour a team is drawn in.
pub open spec fn spec_team_color(team: Team) -> Color {
    match team {
        Team::Red => Color::Red,
        Team::Blue => Color::Blue,
    }
}

fn team_color(team: Team) -> (r: Color)
    ensures
        r == spec_team_color(team),
{
    match team {
        Team::Red => Color::Red,
        Team::Blue => Color::Blue,
    }
}

/// The chess symbol of a piece: black symbols for Red, white ones for Blue.
pub open spec fn spec_icon(p: Piece) -> char {
    match (p.team, p.kind) {
        (Team::Red, PieceKind::Pawn) => '♟',
        (Team::Red, PieceKind::Bishop) => '♝',
        (Team::Red, PieceKind::Knight) => '♞',
        (Team::Red, PieceKind::Rook) => '♜',
        (Team::Red, PieceKind::King) => '♚',
        (Team::Blue, PieceKind::Pawn) => '♙',
        (Team::Blue, PieceKind::Bishop) => '♗',
        (Team::Blue, PieceKind::Knight) => '♘',
        (Team::Blue, PieceKind::Rook) => '♖',
        (Team::Blue, PieceKind::King) => '♔',
    }
}

/// How a piece is drawn: its symbol in its team's bright colour.
pub open spec fn spec_piece_text(p: Piece) -> Seq<char> {
    spec_team_color(p.team).spec_show(false, true) + seq![spec_icon(p)] + reset_seq()
}

impl Piece {
    /// How the piece is drawn: its symbol in its team's bright colour.
    pub fn to_string(&self) -> (r: String)
        ensures
            r@ == spec_piece_text(*self),
    {
        let icon = match (self.team, self.kind) {
            (Team::Red, PieceKind::Pawn) => '♟',
            (Team::Red, PieceKind::Bishop) => '♝',
            (Team::Red, PieceKind::Knight) => '♞',
            (Team::Red, PieceKind::Rook) => '♜',
            (Team::Red, PieceKind::King) => '♚',
            (Team::Blue, PieceKind::Pawn) => '♙',
            (Team::Blue, PieceKind::Bishop) => '♗',
            (Team::Blue, PieceKind::Knight) => '♘',
            (Team::Blue, PieceKind::Rook) => '♖',
            (Team::Blue, PieceKind::King) => '♔',
        };
        let mut r = team_color(self.team).show(false, true);
        push_char(&mut r, icon);
        r.append(reset().as_str());
        assert(r@ =~= spec_piece_text(*self));
        r
    }
}

/// The edge character of a tile of height `h`.
pub open spec fn spec_bar(h: u8) -> char {
    if h == 0 {
        ' '
    } else if h == 1 {
        '|'
    } else {
        '║'
    }
}

/// The colour of the edges of a tile of height `h`.
pub open spec fn spec_height_color(h: u8) -> Color {
    if h == 0 {
        Color::Green
    } else if h == 1 {
        Color::Yellow
    } else {
        Color::Cyan
    }
}

/// The background colour of a tile of kind `k`.
pub open spec fn spec_kind_color(k: TileKind) -> Color {
    match k {
        TileKind::Normal => Color::Black,
        TileKind::Goal(Team::Red) => Color::Red,
        TileKind::Goal(Team::Blue) => Color::Blue,
    }
}

/// How a tile is drawn: an edge, its piece (or a dot), an edge. The edges
/// show the height; the background, whose goal it is. A piece on a goal is
/// drawn in the other team's colours.
pub open spec fn spec_tile_text(t: Tile) -> Seq<char> {
    let bar = spec_kind_color(t.kind).spec_show(true, false) + spec_height_color(t.height).spec_show(
        false,
        false,
    ) + seq![spec_bar(t.height)];
    let piece = match t.piece {
        None => Color::Black.spec_show(false, false) + seq!['◦'] + reset_seq(),
        Some(p) => spec_piece_text(
            if TILE_FLIPPING && t.kind != TileKind::Normal {
                Piece { team: p.team.spec_other(), ..p }
            } else {
                p
            },
        ),
    };
    bar + piece + bar + reset_seq()
}

impl Tile {
    /// How the tile is drawn.
    pub fn to_string(&self) -> (r: String)
        requires
            self.height <= 2,
        ensures
            r@ == spec_tile_text(*self),
    {
        let (bar, fg) = if self.height == 0 {
            (' ', Color::Green)
        } else if self.height == 1 {
            ('|', Color::Yellow)
        } else {
            ('║', Color::Cyan)
        };
        let bg = match self.kind {
            TileKind::Normal => Color::Black,
            TileKind::Goal(Team::Red) => Color::Red,
            TileKind::Goal(Team::Blue) => Color::Blue,
        };
        let piece = match self.piece {
            None => {
                let mut s = Color::Black.show(false, false);
                push_char(&mut s, '◦');
                s.append(reset().as_str());
                s
            },
            Some(p) => {
                let shown = if TILE_FLIPPING && self.kind != TileKind::Normal {
                    Piece { team: p.team.other(), ..p }
                } else {
                    p
                };
                shown.to_string()
            },
        };
        let mut edge = bg.show(true, false);
        edge.append(fg.show(false, false).as_str());
        push_char(&mut edge, bar);
        let mut r = String::new();
        r.append(edge.as_str());
        r.append(piece.as_str());
        r.append(edge.as_str());
        r.append(reset().as_str());
        assert(r@ =~= spec_tile_text(*self));
        r
    }
}

impl Default for Tile {
    /// A flat, ordinary, empty tile.
    fn default() -> (r: Self)
        ensures
            r == (Tile { height: 0, kind: TileKind::Normal, piece: None }),
    {
        Tile { height: 0, kind: TileKind::Normal, piece: None }
    }
}

/// The height that a roll of `chance` gives: 2 for 0, 1 for 1 and 2, else 0.
pub open spec fn spec_height_of_roll(chance: u8) -> u8 {
    if chance == 0 {
        2
    } else if chance < 3 {
        1
    } else {
        0
    }
}

/// The kind of piece a code letter names.
pub open spec fn spec_kind_of_code(c: char) -> Option<PieceKind> {
    if c == 'K' {
        Some(PieceKind::King)
    } else if c == 'R' {
        Some(PieceKind::Rook)
    } else if c == 'N' {
        Some(PieceKind::Knight)
    } else if c == 'B' {
        Some(PieceKind::Bishop)
    } else if c == 'P' {
        Some(PieceKind::Pawn)
    } else {
        None
    }
}

/// The team a code letter names: `r` or `b`.
pub open spec fn spec_team_of_code(c: char) -> Option<Team> {
    if c == 'r' {
        Some(Team::Red)
    } else if c == 'b' {
        Some(Team::Blue)
    } else {
        None
    }
}

/// `s` names a tile: `_` for an empty one, or a team letter followed by a
/// piece letter (`rK`, `bP`).
pub open spec fn is_tile_code(s: Seq<char>) -> bool {
    &&& s.len() >= 1
    &&& (s[0] == '_' || (spec_team_of_code(s[0]) is Some && s.len() >= 2 && spec_kind_of_code(
        s[1],
    ) is Some))
}

/// The piece that a tile code names, if any.
pub open spec fn spec_piece_of_code(s: Seq<char>) -> Option<Piece> {
    if s[0] == '_' {
        None
    } else {
        Some(Piece { team: spec_team_of_code(s[0])->0, kind: spec_kind_of_code(s[1])->0 })
    }
}

/// The tile that a roll of `chance` and the code `s` describe. A King's
/// square is its team's goal.
pub open spec fn spec_tile_of(chance: u8, s: Seq<char>) -> Tile {
    let piece = spec_piece_of_code(s);
    Tile {
        height: spec_height_of_roll(chance),
        kind: match piece {
            Some(p) => if p.kind == PieceKind::King {
                TileKind::Goal(p.team)
            } else {
                TileKind::Normal
            },
            None => TileKind::Normal,
        },
        piece,
    }
}

impl Tile {
    /// The tile with the height that `chance` gives and the piece that
    /// `piece` names.
    pub fn new(chance: u8, piece: &str) -> (r: Self)
        requires
            is_tile_code(piece@),
        ensures
            r == spec_tile_of(chance, piece@),
    {
        let first = piece.get_char(0);
        let team = if first == 'r' {
            Some(Team::Red)
        } else if first == 'b' {
            Some(Team::Blue)
        } else {
            None
        };
        let occupant = match team {
            Some(team) => {
                let code = piece.get_char(1);
                let kind = if code == 'K' {
                    PieceKind::King
                } else if code == 'R' {
                    PieceKind::Rook
                } else if code == 'N' {
                    PieceKind::Knight
                } else if code == 'B' {
                    PieceKind::Bishop
                } else {
                    PieceKind::Pawn
                };
                Some(Piece { team, kind })
            },
            None => None,
        };
        let height: u8 = if chance == 0 {
            2
        } else if chance < 3 {
            1
        } else {
            0
        };
        let kind = match occupant {
            Some(p) => if p.kind == PieceKind::King {
                TileKind::Goal(p.team)
            } else {
                TileKind::Normal
            },
            None => TileKind::Normal,
        };
        Tile { height, kind, piece: occupant }
    }
}

} // verus!
