//! General-purpose helpers: characters and strings.
use vstd::prelude::*;

verus! {

use vstd::std_specs::iter::IteratorSpec;

/// Relies on `RangeInclusive::start`: the lower bound of the range, as it was made.
pub assume_specification<Idx>[ std::ops::RangeInclusive::<Idx>::start ](
    r: &std::ops::RangeInclusive<Idx>,
) -> (s: &Idx)
    ensures
        !r@.exhausted ==> *s == r@.start,
;

/// Relies on `RangeInclusive::end`: the upper bound of the range, as it was made.
pub assume_specification<Idx>[ std::ops::RangeInclusive::<Idx>::end ](
    r: &std::ops::RangeInclusive<Idx>,
) -> (e: &Idx)
    ensures
        !r@.exhausted ==> *e == r@.end,
;

/// Relies on `String::push`: appends one character at the end.
#[verifier::external_body]
pub(crate) fn push_char(s: &mut String, c: char)
    ensures
        final(s)@ == old(s)@.push(c),
{
    s.push(c);
}

/// The escape sequence that ends every coloured span: it resets the
/// terminal's colours.
pub open spec fn reset_seq() -> Seq<char> {
    seq!['\u{1b}', '[', '0', 'm']
}

/// The escape sequence that resets the terminal's colours.
pub fn reset() -> (r: String)
    ensures
        r@ == reset_seq(),
{
    let mut r = String::new();
    push_char(&mut r, '\u{1b}');
    push_char(&mut r, '[');
    push_char(&mut r, '0');
    push_char(&mut r, 'm');
    r
}

/// The eight terminal colours.
#[derive(Debug, Clone, Copy, PartialEq, Eq, Structural)]
pub enum Color {
    Black,
    Red,
    Green,
    Yellow,
    Blue,
    Magenta,
    Cyan,
    White,
}

/// A terminal escape sequence: `ESC [ code m`.
pub open spec fn spec_trigger(code: Seq<char>) -> Seq<char> {
    seq!['\u{1b}', '['] + code + seq!['m']
}

impl Color {
    /// The number the terminal knows the colour by.
    pub open spec fn spec_index(self) -> u8 {
        match self {
            Color::Black => 0,
            Color::Red => 1,
            Color::Green => 2,
            Color::Yellow => 3,
            Color::Blue => 4,
            Color::Magenta => 5,
            Color::Cyan => 6,
            Color::White => 7,
        }
    }

    /// The escape sequence that selects this colour: for the background if
    /// `back`, else for the text; bright if `bright`.
    pub open spec fn spec_show(self, back: bool, bright: bool) -> Seq<char> {
        spec_trigger(
            seq![if back {
                '4'
            } else {
                '3'
            }, ('0' as u32 + self.spec_index()) as char] + if bright {
                seq![';', '1']
            } else {
                Seq::empty()
            },
        )
    }

    fn index(self) -> (r: u8)
        ensures
            r == self.spec_index(),
    {
        match self {
            Color::Black => 0,
            Color::Red => 1,
            Color::Green => 2,
            Color::Yellow => 3,
            Color::Blue => 4,
            Color::Magenta => 5,
            Color::Cyan => 6,
            Color::White => 7,
        }
    }

    /// The escape sequence `ESC [ code m`.
    pub fn trigger(code: &str) -> (r: String)
        ensures
            r@ == spec_trigger(code@),
    {
        let mut r = String::new();
        push_char(&mut r, '\u{1b}');
        push_char(&mut r, '[');
        r.append(code);
        push_char(&mut r, 'm');
        assert(r@ =~= spec_trigger(code@));
        r
    }

    /// The escape sequence that selects this colour: for the background if
    /// `back`, else for the text; bright if `bright`.
    pub fn show(self, back: bool, bright: bool) -> (r: String)
        ensures
            r@ == self.spec_show(back, bright),
    {
        let mut code = String::new();
        push_char(&mut code, if back { '4' } else { '3' });
        push_char(&mut code, num_to_char(self.index(), '0'..='9'));
        if bright {
            push_char(&mut code, ';');
            push_char(&mut code, '1');
        }
        let r = Self::trigger(code.as_str());
        assert(r@ =~= self.spec_show(back, bright));
        r
    }

    /// The escape sequence that selects this colour for the text.
    pub fn to_string(&self) -> (r: String)
        ensures
            r@ == self.spec_show(false, false),
    {
        self.show(false, false)
    }
}

/// The character `num` places after the start of `range`.
pub fn num_to_char(num: u8, range: std::ops::RangeInclusive<char>) -> (r: char)
    requires
        !range@.exhausted,
        range@.end as u32 <= 255,
        range@.start as u32 + num <= range@.end as u32,
    ensures
        r as u32 == range@.start as u32 + num,
{
    let start: &char = range.start();
    let code: u32 = *start as u32;
    let sum: u8 = num + code as u8;
    sum as char
}

/// A string of `count` copies of `c`.
pub fn repeat_char(c: char, count: usize) -> (r: String)
    ensures
        r@ == Seq::new(count as nat, |i: int| c),
{
    let mut r = String::new();
    let mut i: usize = 0;
    while i < count
        invariant
            i <= count,
            r@ == Seq::new(i as nat, |j: int| c),
        decreases count - i,
    {
        push_char(&mut r, c);
        i = i + 1;
        assert(r@ =~= Seq::new(i as nat, |j: int| c));
    }
    r
}

/// Fills an `H` by `W` array, row after row, with the next `W * H` items of
/// `iter`.
pub fn arr_2d_from_iter<T: Copy + Default, const W: usize, const H: usize, I: Iterator<Item = T>>(
    iter: &mut I,
) -> (r: [[T; W]; H])
    requires
        (*old(iter)).obeys_prophetic_iter_laws(),
        (*old(iter)).remaining().len() >= W * H,
    ensures
        (*final(iter)).remaining() == (*old(iter)).remaining().skip(W * H),
        forall|i: int, j: int|
            0 <= i < H && 0 <= j < W ==> #[trigger] r[i][j] == (*old(iter)).remaining()[i * W + j],
{
    let ghost items = (*iter).remaining();
    let mut out: [[T; W]; H] = [[T::default(); W]; H];
    let mut row: usize = 0;
    while row < H
        invariant
            row <= H,
            (*iter).obeys_prophetic_iter_laws(),
            items.len() >= W * H,
            (*iter).remaining() == items.skip(row * W),
            forall|i: int, j: int|
                0 <= i < row && 0 <= j < W ==> #[trigger] out[i][j] == items[i * W + j],
        decreases H - row,
    {
        proof {
            assert(row * W + W <= W * H) by (nonlinear_arith)
                requires
                    row < H,
            ;
        }
        let mut line: [T; W] = out[row];
        let mut col: usize = 0;
        while col < W
            invariant
                row < H,
                col <= W,
                row * W + W <= W * H,
                (*iter).obeys_prophetic_iter_laws(),
                items.len() >= W * H,
                (*iter).remaining() == items.skip(row * W + col),
                forall|j: int| 0 <= j < col ==> #[trigger] line[j] == items[row * W + j],
            decreases W - col,
        {
            let item = iter.next();
            match item {
                Some(v) => {
                    line[col] = v;
                },
                None => {
                    assert(false);
                },
            }
            assert(items.skip(row * W + col).drop_first() =~= items.skip(row * W + col + 1));
            col = col + 1;
        }
        out[row] = line;
        proof {
            assert((row + 1) * W == row * W + W) by (nonlinear_arith);
        }
        row = row + 1;
    }
    assert(H * W == W * H) by (nonlinear_arith);
    out
}

} // verus!
