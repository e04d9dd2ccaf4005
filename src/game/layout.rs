//! Setting up a board from a layout, and drawing it for a terminal.
use vstd::prelude::*;

use super::board::Board;
use super::tile::{is_tile_code, spec_tile_of, spec_tile_text, Tile, TileKind};
use super::{Position, Team};
use crate::helpers::{push_char, repeat_char, reset, reset_seq, Color};

verus! {

use vstd::std_specs::iter::IteratorSpec;

/// The words of the text `s`, as `str::split_whitespace` finds them.
pub uninterp spec fn words_of(s: Seq<char>) -> Seq<Seq<char>>;

/// Relies on `str::split_whitespace`: the words of a text depend on its
/// characters alone.
#[verifier::external_body]
fn split_words(s: &str) -> (r: Vec<&str>)
    ensures
        r@.map_values(|w: &str| w@) == words_of(s@),
{
    s.split_whitespace().collect()
}

/// Relies on `rand`: `Uniform::from(0..bound)` sampled with `thread_rng()`
/// gives a number below `bound`; `Uniform::new` panics on an empty range,
/// which `0 < bound` rules out.
#[verifier::external_body]
fn roll(bound: u8) -> (r: u8)
    requires
        0 < bound,
    ensures
        r < bound,
{
    rand::distributions::Distribution::sample(
        &rand::distributions::Uniform::from(0u8..bound),
        &mut rand::thread_rng(),
    )
}

/// Every word of `codes` names a tile.
pub open spec fn all_tile_codes(codes: Seq<Seq<char>>) -> bool {
    forall|k: int| 0 <= k < codes.len() ==> is_tile_code(#[trigger] codes[k])
}

/// `board` holds, row after row from the top, the tiles that `codes` and
/// the rolls `rolls` describe, and Blue is to move.
pub open spec fn is_laid_out<const N: usize>(
    board: Board<N>,
    codes: Seq<Seq<char>>,
    rolls: Seq<u8>,
) -> bool {
    &&& board.turn == Team::Blue
    &&& forall|r: int, c: int|
        0 <= r < N && 0 <= c < N ==> #[trigger] board.tiles@[r]@[c] == spec_tile_of(
            rolls[r * N + c],
            codes[r * N + c],
        )
}

impl<const N: usize> Board<N> {
    /// The board whose tiles, row after row from the top, the codes `codes`
    /// and the rolls `rolls` describe; `None` unless there are exactly
    /// `N * N` codes and each names a tile.
    pub fn from_codes(codes: &Vec<&str>, rolls: &Vec<u8>) -> (r: Option<Self>)
        requires
            rolls@.len() == N * N,
        ensures
            r is Some <==> codes@.len() == N * N && all_tile_codes(
                codes@.map_values(|w: &str| w@),
            ),
            r is Some ==> is_laid_out(r->0, codes@.map_values(|w: &str| w@), rolls@),
    {
        let ghost words = codes@.map_values(|w: &str| w@);
        if codes.len() != rolls.len() {
            return None;
        }
        let mut tiles: Vec<Tile> = Vec::new();
        let mut k: usize = 0;
        while k < codes.len()
            invariant
                k <= codes@.len(),
                codes@.len() == N * N,
                rolls@.len() == N * N,
                words == codes@.map_values(|w: &str| w@),
                tiles@.len() == k,
                forall|j: int| 0 <= j < k ==> is_tile_code(#[trigger] words[j]),
                forall|j: int|
                    0 <= j < k ==> #[trigger] tiles@[j] == spec_tile_of(rolls@[j], words[j]),
            decreases codes@.len() - k,
        {
            assert(words[k as int] == codes@[k as int]@);
            if !is_tile_code_exec(codes[k]) {
                return None;
            }
            tiles.push(Tile::new(rolls[k], codes[k]));
            k = k + 1;
        }
        let ghost items = tiles@;
        let mut iter = tiles.into_iter();
        assert((*&iter).remaining() == items);
        let grid: [[Tile; N]; N] = crate::helpers::arr_2d_from_iter(&mut iter);
        let board = Board { tiles: grid, turn: Team::Blue };
        assert forall|r: int, c: int| 0 <= r < N && 0 <= c < N implies #[trigger] board.tiles@[r]@[c]
            == spec_tile_of(rolls@[r * N + c], words[r * N + c]) by {
            assert(grid[r][c] == items[r * N + c]);
            assert(0 <= r * N + c < N * N) by (nonlinear_arith)
                requires
                    0 <= r < N,
                    0 <= c < N,
            ;
        }
        Some(board)
    }
}

/// Rolls `count` numbers below 9.
fn rolls(count: usize) -> (r: Vec<u8>)
    ensures
        r@.len() == count,
        forall|k: int| 0 <= k < count ==> #[trigger] r@[k] < 9,
{
    let mut r: Vec<u8> = Vec::new();
    let mut k: usize = 0;
    while k < count
        invariant
            k <= count,
            r@.len() == k,
            forall|j: int| 0 <= j < k ==> #[trigger] r@[j] < 9,
        decreases count - k,
    {
        r.push(roll(9));
        k = k + 1;
    }
    r
}

impl<const N: usize> Board<N> {
    /// The board that the layout `s` describes: its words, row after row
    /// from the top, each name a tile (`__` for an empty one, else a team
    /// letter and a piece letter, `rK`), and each tile gets a random height.
    /// `None` unless there are exactly `N * N` words and each names a tile.
    pub fn from_layout(s: &str) -> (r: Option<Self>)
        ensures
            r is Some <==> N * N <= usize::MAX && words_of(s@).len() == N * N && all_tile_codes(
                words_of(s@),
            ),
            r is Some ==> exists|rolls: Seq<u8>|
                rolls.len() == N * N && (forall|k: int| 0 <= k < N * N ==> #[trigger] rolls[k] < 9)
                    && is_laid_out(r->0, words_of(s@), rolls),
    {
        let count = match N.checked_mul(N) {
            None => {
                return None;
            },
            Some(count) => count,
        };
        let words = split_words(s);
        let heights = rolls(count);
        let r = Self::from_codes(&words, &heights);
        proof {
            if r is Some {
                assert(heights@.len() == N * N);
            }
        }
        r
    }
}

/// The opening of the 6 by 6 game, row after row from the top.
pub open spec fn layout_six() -> Seq<Seq<char>> {
    seq![
        "rK"@, "rR"@, "__"@, "__"@, "__"@, "__"@,
        "rN"@, "rP"@, "__"@, "__"@, "__"@, "__"@,
        "__"@, "__"@, "__"@, "__"@, "__"@, "__"@,
        "__"@, "__"@, "__"@, "__"@, "__"@, "__"@,
        "__"@, "__"@, "__"@, "__"@, "bP"@, "bN"@,
        "__"@, "__"@, "__"@, "__"@, "bR"@, "bK"@,
    ]
}

/// The opening of the 8 by 8 game, row after row from the top.
pub open spec fn layout_eight() -> Seq<Seq<char>> {
    seq![
        "__"@, "__"@, "__"@, "__"@, "__"@, "rP"@, "rR"@, "rK"@,
        "__"@, "__"@, "__"@, "__"@, "__"@, "__"@, "rN"@, "rB"@,
        "__"@, "__"@, "__"@, "__"@, "__"@, "__"@, "rP"@, "__"@,
        "__"@, "__"@, "__"@, "__"@, "__"@, "__"@, "__"@, "__"@,
        "__"@, "__"@, "__"@, "__"@, "__"@, "__"@, "__"@, "__"@,
        "__"@, "bP"@, "__"@, "__"@, "__"@, "__"@, "__"@, "__"@,
        "bB"@, "bN"@, "__"@, "__"@, "__"@, "__"@, "__"@, "__"@,
        "bK"@, "bR"@, "bP"@, "__"@, "__"@, "__"@, "__"@, "__"@,
    ]
}

impl Board<6> {
    /// The opening of the 6 by 6 game, with random heights.
    pub fn new() -> (r: Self)
        ensures
            exists|rolls: Seq<u8>| is_laid_out(r, layout_six(), rolls),
    {
        let codes: Vec<&str> = vec![
            "rK", "rR", "__", "__", "__", "__",
            "rN", "rP", "__", "__", "__", "__",
            "__", "__", "__", "__", "__", "__",
            "__", "__", "__", "__", "__", "__",
            "__", "__", "__", "__", "bP", "bN",
            "__", "__", "__", "__", "bR", "bK",
        ];
        proof {
            reveal_strlit("rK");
            reveal_strlit("rR");
            reveal_strlit("rN");
            reveal_strlit("rP");
            reveal_strlit("__");
            reveal_strlit("bK");
            reveal_strlit("bR");
            reveal_strlit("bN");
            reveal_strlit("bP");
            assert(codes@.map_values(|w: &str| w@) =~= layout_six());
        }
        let heights = rolls(36);
        match Self::from_codes(&codes, &heights) {
            Some(board) => board,
            None => Board { tiles: [[Tile::default(); 6]; 6], turn: Team::Blue },
        }
    }
}

impl Board<8> {
    /// The opening of the 8 by 8 game, with random heights.
    pub fn new() -> (r: Self)
        ensures
            exists|rolls: Seq<u8>| is_laid_out(r, layout_eight(), rolls),
    {
        let codes: Vec<&str> = vec![
            "__", "__", "__", "__", "__", "rP", "rR", "rK",
            "__", "__", "__", "__", "__", "__", "rN", "rB",
            "__", "__", "__", "__", "__", "__", "rP", "__",
            "__", "__", "__", "__", "__", "__", "__", "__",
            "__", "__", "__", "__", "__", "__", "__", "__",
            "__", "bP", "__", "__", "__", "__", "__", "__",
            "bB", "bN", "__", "__", "__", "__", "__", "__",
            "bK", "bR", "bP", "__", "__", "__", "__", "__",
        ];
        proof {
            reveal_strlit("rK");
            reveal_strlit("rR");
            reveal_strlit("rN");
            reveal_strlit("rB");
            reveal_strlit("rP");
            reveal_strlit("__");
            reveal_strlit("bK");
            reveal_strlit("bR");
            reveal_strlit("bN");
            reveal_strlit("bB");
            reveal_strlit("bP");
            assert(codes@.map_values(|w: &str| w@) =~= layout_eight());
        }
        let heights = rolls(64);
        match Self::from_codes(&codes, &heights) {
            Some(board) => board,
            None => Board { tiles: [[Tile::default(); 8]; 8], turn: Team::Blue },
        }
    }
}

/// Every tile of `board` has a height of at most 2.
pub open spec fn heights_ok<const N: usize>(board: Board<N>) -> bool {
    forall|r: int, c: int| 0 <= r < N && 0 <= c < N ==> #[trigger] board.tiles@[r]@[c].height <= 2
}

/// The first `k` tiles of `row`, drawn one after the other.
pub open spec fn spec_row_text(row: Seq<Tile>, k: nat) -> Seq<char>
    decreases k,
{
    if k == 0 {
        Seq::empty()
    } else {
        spec_row_text(row, (k - 1) as nat) + spec_tile_text(row[k - 1])
    }
}

/// The colour of the frame around the board.
pub open spec fn spec_border() -> Seq<char> {
    Color::Magenta.spec_show(false, false)
}

/// The first `k` rows of `board`, each framed on both sides and ended by a
/// new line.
pub open spec fn spec_rows_text<const N: usize>(board: Board<N>, k: nat) -> Seq<char>
    decreases k,
{
    if k == 0 {
        Seq::empty()
    } else {
        spec_rows_text(board, (k - 1) as nat) + seq!['┃'] + spec_row_text(
            board.tiles@[k - 1]@,
            N as nat,
        ) + spec_border() + seq!['┃', '\n']
    }
}

/// How a board is drawn: its rows from the top, in a frame.
pub open spec fn spec_board_text<const N: usize>(board: Board<N>) -> Seq<char> {
    let bar = Seq::new((3 * N) as nat, |i: int| '━');
    spec_border() + seq!['┏'] + bar + seq!['┓', '\n'] + spec_rows_text(board, N as nat) + seq!['┗']
        + bar + seq!['┛'] + reset_seq() + seq!['\n']
}

impl<const N: usize> Board<N> {
    /// How the board is drawn: its rows from the top, in a frame.
    pub fn to_string(&self) -> (r: String)
        requires
            3 * N <= usize::MAX,
            heights_ok(*self),
        ensures
            r@ == spec_board_text(*self),
    {
        let bar = repeat_char('━', N * 3);
        let border = Color::Magenta.show(false, false);
        let mut r = String::new();
        r.append(border.as_str());
        push_char(&mut r, '┏');
        r.append(bar.as_str());
        push_char(&mut r, '┓');
        push_char(&mut r, '\n');
        let ghost head = r@;
        let mut k: usize = 0;
        while k < N
            invariant
                k <= N,
                heights_ok(*self),
                border@ == spec_border(),
                r@ == head + spec_rows_text(*self, k as nat),
            decreases N - k,
        {
            let ghost before = r@;
            push_char(&mut r, '┃');
            let mut c: usize = 0;
            while c < N
                invariant
                    k < N,
                    c <= N,
                    heights_ok(*self),
                    r@ == before + seq!['┃'] + spec_row_text(self.tiles@[k as int]@, c as nat),
                decreases N - c,
            {
                let tile = self.tiles[k][c];
                assert(tile.height <= 2);
                r.append(tile.to_string().as_str());
                c = c + 1;
                assert(r@ =~= before + seq!['┃'] + spec_row_text(self.tiles@[k as int]@, c as nat));
            }
            r.append(border.as_str());
            push_char(&mut r, '┃');
            push_char(&mut r, '\n');
            k = k + 1;
            assert(r@ =~= head + spec_rows_text(*self, k as nat));
        }
        push_char(&mut r, '┗');
        r.append(bar.as_str());
        push_char(&mut r, '┛');
        r.append(reset().as_str());
        push_char(&mut r, '\n');
        assert(r@ =~= spec_board_text(*self));
        r
    }
}

impl<const N: usize> Default for Board<N> {
    /// A board of flat, ordinary, empty tiles, Blue to move.
    fn default() -> (r: Self)
        ensures
            r.turn == Team::Blue,
            forall|q: Position|
                Self::in_bounds(q) ==> #[trigger] r.tile_at(q) == (Tile {
                    height: 0,
                    kind: TileKind::Normal,
                    piece: None,
                }),
    {
        let empty = Tile::default();
        let row: [Tile; N] = [empty; N];
        let board = Board { tiles: [row; N], turn: Team::default() };
        assert forall|q: Position| Self::in_bounds(q) implies #[trigger] board.tile_at(q) == (Tile {
            height: 0,
            kind: TileKind::Normal,
            piece: None,
        }) by {
            broadcast use vstd::array::group_array_axioms;

            assert(row == vstd::array::spec_array_fill_for_copy_type::<Tile, N>(empty));
            assert(board.tiles == vstd::array::spec_array_fill_for_copy_type::<[Tile; N], N>(row));
            assert(board.tiles@[N - 1 - q.y] == row);
            assert(row@[q.x as int] == empty);
        }
        board
    }
}

/// Whether `s` names a tile.
fn is_tile_code_exec(s: &str) -> (r: bool)
    ensures
        r == is_tile_code(s@),
{
    let n = s.unicode_len();
    if n == 0 {
        return false;
    }
    let first = s.get_char(0);
    if first == '_' {
        return true;
    }
    if !(first == 'r' || first == 'b') || n < 2 {
        return false;
    }
    let second = s.get_char(1);
    second == 'K' || second == 'R' || second == 'N' || second == 'B' || second == 'P'
}

} // verus!
