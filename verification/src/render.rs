//! The forest as text for a terminal: one coloured letter for each cell.

use ansi_term::{Colour, Style};
use vstd::prelude::*;
use vstd::string::*;
use crate::grid::Grid;
use crate::state::State;

verus! {

/// The colours in which cells are drawn.
#[derive(Clone, Copy, Debug, PartialEq, Eq, Structural)]
pub enum Tint {
    Black,
    Red,
    Green,
    Yellow,
}

/// How one cell is drawn: a letter, its colour, and whether it is bold.
#[derive(Clone, Copy, Debug, PartialEq, Eq, Structural)]
pub struct Glyph {
    pub tint: Tint,
    pub bold: bool,
    pub letter: char,
}

/// The glyph of each state: a blank for an empty cell, a green `T` for a
/// tree, a red `B` for a burning tree and a yellow `T` for a heating one.
pub open spec fn glyph_of(state: State) -> Glyph {
    match state {
        State::Empty => Glyph { tint: Tint::Black, bold: false, letter: ' ' },
        State::Tree => Glyph { tint: Tint::Green, bold: true, letter: 'T' },
        State::Burning => Glyph { tint: Tint::Red, bold: true, letter: 'B' },
        State::Heating => Glyph { tint: Tint::Yellow, bold: true, letter: 'T' },
    }
}

pub fn glyph(state: State) -> (glyph: Glyph)
    ensures
        glyph == glyph_of(state),
{
    match state {
        State::Empty => Glyph { tint: Tint::Black, bold: false, letter: ' ' },
        State::Tree => Glyph { tint: Tint::Green, bold: true, letter: 'T' },
        State::Burning => Glyph { tint: Tint::Red, bold: true, letter: 'B' },
        State::Heating => Glyph { tint: Tint::Yellow, bold: true, letter: 'T' },
    }
}

/// The last digit of the code that selects `tint` as the colour of the
/// text: the codes run from 30 for black to 33 for yellow.
pub open spec fn tint_digit(tint: Tint) -> char {
    match tint {
        Tint::Black => '0',
        Tint::Red => '1',
        Tint::Green => '2',
        Tint::Yellow => '3',
    }
}

/// `text` between the escape sequence that selects the colour `tint`, bold
/// or not, and the sequence that resets the terminal's style.
pub open spec fn painted(tint: Tint, bold: bool, text: Seq<char>) -> Seq<char> {
    "\x1b["@ + (if bold {
        "1;"@
    } else {
        Seq::empty()
    }) + "3"@ + seq![tint_digit(tint)] + "m"@ + text + "\x1b[0m"@
}

/// Paints one letter with `ansi_term`: `Style::paint` on a style that has
/// the colour `tint` in the foreground, is bold or not, and has nothing else
/// set, and then the `Display` of the painted string. That writes the escape
/// sequence that opens the style (the code 1 where it is bold, then the code
/// of the colour), the letter as it is, and the sequence that resets the
/// style.
#[verifier::external_body]
fn paint(tint: Tint, bold: bool, letter: char) -> (out: String)
    ensures
        out@ == painted(tint, bold, seq![letter]),
{
    let colour = match tint {
        Tint::Black => Colour::Black,
        Tint::Red => Colour::Red,
        Tint::Green => Colour::Green,
        Tint::Yellow => Colour::Yellow,
    };
    let style = Style { foreground: Some(colour), is_bold: bold, ..Style::default() };
    style.paint(letter.to_string()).to_string()
}

/// The text that shows one cell.
pub open spec fn tile_text(state: State) -> Seq<char> {
    let glyph = glyph_of(state);
    painted(glyph.tint, glyph.bold, seq![glyph.letter])
}

/// The text that shows one cell in its colour.
pub fn paint_tile(state: State) -> (out: String)
    ensures
        out@ == tile_text(state),
{
    let glyph = glyph(state);
    paint(glyph.tint, glyph.bold, glyph.letter)
}

/// The character of the digit `d`.
pub open spec fn digit_char(d: nat) -> char {
    if d == 0 {
        '0'
    } else if d == 1 {
        '1'
    } else if d == 2 {
        '2'
    } else if d == 3 {
        '3'
    } else if d == 4 {
        '4'
    } else if d == 5 {
        '5'
    } else if d == 6 {
        '6'
    } else if d == 7 {
        '7'
    } else if d == 8 {
        '8'
    } else {
        '9'
    }
}

/// The number `n` written in decimal digits, without leading zeros.
pub open spec fn decimal(n: nat) -> Seq<char>
    decreases n,
{
    if n < 10 {
        seq![digit_char(n)]
    } else {
        decimal(n / 10).push(digit_char(n % 10))
    }
}

fn digit_str(d: u128) -> (text: &'static str)
    requires
        d < 10,
    ensures
        text@ == seq![digit_char(d as nat)],
{
    proof {
        reveal_strlit("0");
        reveal_strlit("1");
        reveal_strlit("2");
        reveal_strlit("3");
        reveal_strlit("4");
        reveal_strlit("5");
        reveal_strlit("6");
        reveal_strlit("7");
        reveal_strlit("8");
        reveal_strlit("9");
    }
    let text = if d == 0 {
        "0"
    } else if d == 1 {
        "1"
    } else if d == 2 {
        "2"
    } else if d == 3 {
        "3"
    } else if d == 4 {
        "4"
    } else if d == 5 {
        "5"
    } else if d == 6 {
        "6"
    } else if d == 7 {
        "7"
    } else if d == 8 {
        "8"
    } else {
        "9"
    };
    text
}

/// Writes `n` in decimal digits.
pub fn decimal_string(n: u128) -> (out: String)
    ensures
        out@ == decimal(n as nat),
{
    let mut out = String::from_str(digit_str(n % 10));
    let mut rest: u128 = n / 10;
    while rest > 0
        invariant
            decimal(n as nat) == if rest == 0 {
                out@
            } else {
                decimal(rest as nat) + out@
            },
        decreases rest,
    {
        out = String::from_str(digit_str(rest % 10)).concat(out.as_str());
        rest = rest / 10;
    }
    out
}

/// The text that shows the first `count` cells of `row`, left to right.
pub open spec fn row_text(row: Seq<State>, count: nat) -> Seq<char>
    decreases count,
{
    if count == 0 {
        Seq::empty()
    } else {
        row_text(row, (count - 1) as nat) + tile_text(row[count - 1])
    }
}

/// The text that shows the first `count` rows of `cells`, each ended by a
/// line feed.
pub open spec fn rows_text(cells: Seq<Seq<State>>, count: nat) -> Seq<char>
    decreases count,
{
    if count == 0 {
        Seq::empty()
    } else {
        rows_text(cells, (count - 1) as nat) + row_text(
            cells[count - 1],
            cells[count - 1].len(),
        ) + "\n"@
    }
}

/// One frame: a headline that counts the generations from one, then the
/// grid row by row.
pub open spec fn frame_text(cells: Seq<Seq<State>>, generation: u64) -> Seq<char> {
    "Generation: "@ + decimal((generation + 1) as nat) + "\n"@ + rows_text(cells, cells.len())
}

/// The frame that shows `forest` as generation `generation`, ready to be
/// written to a terminal.
pub fn render_forest(forest: &Grid, generation: u64) -> (out: String)
    requires
        forest.wf(),
    ensures
        out@ == frame_text(forest@, generation),
{
    let mut out = String::from_str("Generation: ");
    let number = decimal_string(generation as u128 + 1);
    out.append(number.as_str());
    out.append("\n");
    let ghost head = out@;
    let height = forest.height();
    let width = forest.width();
    let mut r: usize = 0;
    while r < height
        invariant
            r <= height,
            forest.wf(),
            height == forest@.len(),
            width == forest.spec_width(),
            out@ == head + rows_text(forest@, r as nat),
        decreases height - r,
    {
        let ghost before = out@;
        let mut c: usize = 0;
        while c < width
            invariant
                r < height,
                c <= width,
                forest.wf(),
                height == forest@.len(),
                width == forest.spec_width(),
                out@ == before + row_text(forest@[r as int], c as nat),
            decreases width - c,
        {
            if let Some(state) = forest.get(r, c) {
                let tile = paint_tile(state);
                out.append(tile.as_str());
            }
            c = c + 1;
        }
        out.append("\n");
        r = r + 1;
    }
    out
}

} // verus!
