//! Teams and board coordinates: compass projection, Moore distance and the
//! letter-and-digit notation of a square.
use vstd::prelude::*;

use crate::helpers::{num_to_char, push_char};

pub mod board;
pub mod layout;
pub mod rules;
pub mod tile;

verus! {

/// One of the two sides of a game.
#[derive(Debug, Clone, Copy, PartialEq, Eq, Hash, Structural)]
pub enum Team {
    Red,
    Blue,
}

impl Team {
    /// The side that is not `self`.
    pub open spec fn spec_other(self) -> Team {
        match self {
            Team::Red => Team::Blue,
            Team::Blue => Team::Red,
        }
    }

    /// The side that is not `self`.
    pub fn other(self) -> (r: Team)
        ensures
            r == self.spec_other(),
    {
        match self {
            Team::Red => Team::Blue,
            Team::Blue => Team::Red,
        }
    }
}

impl Default for Team {
    fn default() -> (r: Self)
        ensures
            r == Team::Blue,
    {
        Team::Blue
    }
}

/// A square of the board: `x` is the file (column), `y` the rank (row);
/// `(0, 0)` is the bottom-left corner.
#[derive(Debug, Clone, Copy, PartialEq, Eq, Structural)]
pub struct Position {
    pub x: i32,
    pub y: i32,
}

/// -1, 0 or 1, after the sign of `v`.
pub open spec fn sign(v: int) -> int {
    if v > 0 {
        1
    } else if v < 0 {
        -1
    } else {
        0
    }
}

pub open spec fn abs(v: int) -> int {
    if v < 0 {
        -v
    } else {
        v
    }
}

/// The displacement `(dx, dy)` points along one of the 8 compass directions:
/// purely orthogonal or purely diagonal, and not zero.
pub open spec fn is_compass(dx: int, dy: int) -> bool {
    ((dx == 0) != (dy == 0)) || (dx != 0 && abs(dx) == abs(dy))
}

/// The square one step past `through`, on the line from `origin` through it,
/// when that line is a compass direction and the square lies in
/// `[0, bound.x) x [0, bound.y)`.
pub open spec fn spec_project(origin: Position, through: Position, bound: Position) -> Option<
    Position,
> {
    let dx = through.x - origin.x;
    let dy = through.y - origin.y;
    let px = through.x + sign(dx);
    let py = through.y + sign(dy);
    if is_compass(dx, dy) && 0 <= px < bound.x && 0 <= py < bound.y {
        Some(Position { x: px as i32, y: py as i32 })
    } else {
        None
    }
}

/// Chebyshev distance: the number of king steps between `a` and `b`.
pub open spec fn spec_moore_distance(a: Position, b: Position) -> int {
    let dx = abs(a.x - b.x);
    let dy = abs(a.y - b.y);
    if dx >= dy {
        dx
    } else {
        dy
    }
}

fn signum(v: i64) -> (r: i64)
    ensures
        r == sign(v as int),
{
    if v > 0 {
        1
    } else if v < 0 {
        -1
    } else {
        0
    }
}

pub(crate) fn abs_diff(a: i32, b: i32) -> (r: u32)
    ensures
        r == abs(a - b),
{
    if a >= b {
        (a as i64 - b as i64) as u32
    } else {
        (b as i64 - a as i64) as u32
    }
}

impl Position {
    /// Pushes `dest` one tile further, away from `self`. Returns `None` if the
    /// line from `self` to `dest` is not one of the 8 compass directions
    /// (equal squares included), or if the square found lies outside
    /// `[0, cap.x) x [0, cap.y)`.
    pub fn project(self, dest: Self, cap: Self) -> (r: Option<Self>)
        ensures
            r == spec_project(self, dest, cap),
    {
        if self == dest {
            return None;
        }
        let diff_x: i64 = dest.x as i64 - self.x as i64;
        let diff_y: i64 = dest.y as i64 - self.y as i64;
        let ortho = (diff_x == 0) != (diff_y == 0);
        let diag = diff_x != 0 && abs_diff(dest.x, self.x) == abs_diff(dest.y, self.y);
        if !(ortho || diag) {
            return None;
        }
        let px: i64 = dest.x as i64 + signum(diff_x);
        let py: i64 = dest.y as i64 + signum(diff_y);
        if 0 <= px && px < cap.x as i64 && 0 <= py && py < cap.y as i64 {
            Some(Position { x: px as i32, y: py as i32 })
        } else {
            None
        }
    }

    /// Chebyshev distance between `self` and `other`.
    pub fn moore_distance(self, other: Self) -> (r: u32)
        ensures
            r == spec_moore_distance(self, other),
    {
        let dx = abs_diff(self.x, other.x);
        let dy = abs_diff(self.y, other.y);
        if dx >= dy {
            dx
        } else {
            dy
        }
    }

    /// Reads a square written as a file letter and a rank digit (`"b3"`);
    /// characters after the second are ignored.
    pub fn parse(s: &str) -> (r: Result<Self, PositionParseErr>)
        ensures
            r == spec_parse_position(s@),
    {
        let len = s.unicode_len();
        if len == 0 {
            return Err(PositionParseErr::NoFile);
        }
        let file = ascii_lowercase(s.get_char(0));
        if !('a' <= file && file <= 'z') {
            return Err(PositionParseErr::InvalidFile(file));
        }
        if len == 1 {
            return Err(PositionParseErr::NoRank);
        }
        let rank = ascii_lowercase(s.get_char(1));
        if !('1' <= rank && rank <= '9') {
            return Err(PositionParseErr::InvalidRank(rank));
        }
        Ok(Position { x: (file as u32 - 'a' as u32) as i32, y: (rank as u32 - '1' as u32) as i32 })
    }

    /// The notation of the square: its file letter, then its rank digit.
    pub fn to_string(&self) -> (r: String)
        requires
            0 <= self.x < 26,
            0 <= self.y < 9,
        ensures
            r@ == spec_notation(*self),
    {
        let file = num_to_char(self.x as u8, 'a'..='z');
        let rank = num_to_char(self.y as u8, '1'..='9');
        let mut s = String::new();
        push_char(&mut s, file);
        push_char(&mut s, rank);
        s
    }
}

/// The character `c` with ASCII upper case letters made lower case.
pub open spec fn spec_ascii_lowercase(c: char) -> char {
    if 'A' <= c <= 'Z' {
        ((c as u32) + 32) as char
    } else {
        c
    }
}

/// The character `c` with ASCII upper case letters made lower case.
pub fn ascii_lowercase(c: char) -> (r: char)
    ensures
        r == spec_ascii_lowercase(c),
{
    if 'A' <= c && c <= 'Z' {
        let code: u8 = c as u8 + 32;
        code as char
    } else {
        c
    }
}

/// What reading a square from the characters `s` gives.
pub open spec fn spec_parse_position(s: Seq<char>) -> Result<Position, PositionParseErr> {
    if s.len() == 0 {
        Err(PositionParseErr::NoFile)
    } else if !('a' <= spec_ascii_lowercase(s[0]) <= 'z') {
        Err(PositionParseErr::InvalidFile(spec_ascii_lowercase(s[0])))
    } else if s.len() == 1 {
        Err(PositionParseErr::NoRank)
    } else if !('1' <= spec_ascii_lowercase(s[1]) <= '9') {
        Err(PositionParseErr::InvalidRank(spec_ascii_lowercase(s[1])))
    } else {
        Ok(
            Position {
                x: (spec_ascii_lowercase(s[0]) as u32 - 'a' as u32) as i32,
                y: (spec_ascii_lowercase(s[1]) as u32 - '1' as u32) as i32,
            },
        )
    }
}

/// The two characters that name square `p`.
pub open spec fn spec_notation(p: Position) -> Seq<char> {
    seq![('a' as u32 + p.x) as char, ('1' as u32 + p.y) as char]
}

/// Projecting is undefined when the two squares are equal or a Knight's
/// move apart.
pub proof fn lemma_project_undefined(a: Position, b: Position, bound: Position)
    requires
        a == b || crate::game::tile::spec_can_move(crate::game::tile::PieceKind::Knight, a, b),
    ensures
        spec_project(a, b, bound) is None,
{
    let dx = abs(a.x - b.x);
    let dy = abs(a.y - b.y);
    if a != b {
        assert((dx == 1 && dy == 2) || (dx == 2 && dy == 1)) by (nonlinear_arith)
            requires
                dx >= 0,
                dy >= 0,
                dx * dy == 2,
        ;
    }
}

/// One step `(dx, dy)` in any of the 8 compass directions from `a` leads to
/// a square that projects onto `a` plus twice the step, when that lies
/// within the bound, and onto nothing otherwise.
pub proof fn lemma_project_straight(a: Position, dx: int, dy: int, bound: Position)
    requires
        -1 <= dx <= 1,
        -1 <= dy <= 1,
        dx != 0 || dy != 0,
        i32::MIN <= a.x + dx <= i32::MAX,
        i32::MIN <= a.y + dy <= i32::MAX,
    ensures
        spec_project(a, Position { x: (a.x + dx) as i32, y: (a.y + dy) as i32 }, bound) == (if 0
            <= a.x + 2 * dx < bound.x && 0 <= a.y + 2 * dy < bound.y {
            Some(Position { x: (a.x + 2 * dx) as i32, y: (a.y + 2 * dy) as i32 })
        } else {
            None::<Position>
        }),
{
}

/// Moore distance is symmetric, and zero from a square to itself.
pub proof fn lemma_moore_distance_symmetric(a: Position, b: Position)
    ensures
        spec_moore_distance(a, b) == spec_moore_distance(b, a),
        spec_moore_distance(a, a) == 0,
{
}

/// Why a square could not be read.
#[derive(Debug, Clone, Copy, PartialEq, Eq, Structural)]
pub enum PositionParseErr {
    /// Empty position.
    NoFile,
    /// The file is not a letter.
    InvalidFile(char),
    /// A file was given without a rank.
    NoRank,
    /// The rank is not a digit from 1 to 9.
    InvalidRank(char),
}

impl std::str::FromStr for Position {
    type Err = PositionParseErr;

    fn from_str(s: &str) -> Result<Self, Self::Err> {
        Position::parse(s)
    }
}

} // verus!
