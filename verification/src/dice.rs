//! Random draws, one for each cell of a grid.

use rand::rngs::ThreadRng;
use rand::Rng;
use vstd::prelude::*;
use crate::chance::ROLL_BOUND;

verus! {

/// `rand::rngs::ThreadRng`, the handle to the generator that `rand` keeps
/// for each thread. Nothing is known of what it holds.
#[verifier::external_type_specification]
#[verifier::external_body]
pub struct ExThreadRng(ThreadRng);

/// `rand::thread_rng` hands out the calling thread's generator; nothing is
/// claimed of it. It panics if the system cannot seed the generator.
pub assume_specification[ rand::thread_rng ]() -> (rng: ThreadRng);

/// `Rng::gen_range` on the half-open range from zero to `bound`: the draw
/// lies in that range. Which number it is remains open; `gen_range` panics
/// on an empty range, so `bound` must not be zero.
#[verifier::external_body]
fn gen_below(rng: &mut ThreadRng, bound: u32) -> (roll: u32)
    requires
        bound > 0,
    ensures
        roll < bound,
{
    rng.gen_range(0..bound)
}

/// Whether every draw in `rolls` is below `ROLL_BOUND`.
pub open spec fn in_range(rolls: Seq<Seq<u32>>) -> bool {
    forall|r: int, c: int|
        0 <= r < rolls.len() && 0 <= c < rolls[r].len() ==> #[trigger] rolls[r][c] < ROLL_BOUND
}

/// Whether `rolls` has `height` rows of `width` draws each.
pub open spec fn table_of(rolls: Seq<Seq<u32>>, height: nat, width: nat) -> bool {
    &&& rolls.len() == height
    &&& forall|r: int| 0 <= r < height ==> (#[trigger] rolls[r]).len() == width
}

/// Whether `rolls` has `height` rows of `width` draws each.
pub fn is_table(rolls: &Vec<Vec<u32>>, height: usize, width: usize) -> (fits: bool)
    ensures
        fits == table_of(rolls.deep_view(), height as nat, width as nat),
{
    if rolls.len() != height {
        return false;
    }
    let mut r: usize = 0;
    while r < height
        invariant
            r <= height,
            rolls@.len() == height,
            forall|i: int| 0 <= i < r ==> (#[trigger] rolls.deep_view()[i]).len() == width,
        decreases height - r,
    {
        if rolls[r].len() != width {
            assert(rolls.deep_view()[r as int].len() != width);
            return false;
        }
        r = r + 1;
    }
    true
}

/// A table that holds `roll` in each of its `height` rows of `width` places:
/// what a source that always returns `roll` would draw.
pub fn constant_table(height: usize, width: usize, roll: u32) -> (rolls: Vec<Vec<u32>>)
    ensures
        rolls.deep_view() == Seq::new(height as nat, |r: int| Seq::new(width as nat, |c: int| roll)),
        table_of(rolls.deep_view(), height as nat, width as nat),
{
    let mut rolls: Vec<Vec<u32>> = Vec::new();
    let mut r: usize = 0;
    while r < height
        invariant
            r <= height,
            table_of(rolls.deep_view(), r as nat, width as nat),
            forall|i: int, j: int|
                0 <= i < r && 0 <= j < width ==> #[trigger] rolls.deep_view()[i][j] == roll,
        decreases height - r,
    {
        let mut row: Vec<u32> = Vec::new();
        let mut c: usize = 0;
        while c < width
            invariant
                c <= width,
                row@.len() == c,
                forall|j: int| 0 <= j < c ==> row@[j] == roll,
            decreases width - c,
        {
            row.push(roll);
            c = c + 1;
        }
        let ghost before = rolls.deep_view();
        rolls.push(row);
        assert(rolls.deep_view() =~~= before.push(row@));
        r = r + 1;
    }
    assert(rolls.deep_view() =~~= Seq::new(
        height as nat,
        |r: int| Seq::new(width as nat, |c: int| roll),
    ));
    rolls
}

/// A table of fresh draws, `height` rows of `width` each.
pub fn draw_table(rng: &mut ThreadRng, height: usize, width: usize) -> (rolls: Vec<Vec<u32>>)
    ensures
        table_of(rolls.deep_view(), height as nat, width as nat),
        in_range(rolls.deep_view()),
{
    let mut rolls: Vec<Vec<u32>> = Vec::new();
    let mut r: usize = 0;
    while r < height
        invariant
            r <= height,
            table_of(rolls.deep_view(), r as nat, width as nat),
            in_range(rolls.deep_view()),
        decreases height - r,
    {
        let mut row: Vec<u32> = Vec::new();
        let mut c: usize = 0;
        while c < width
            invariant
                c <= width,
                row@.len() == c,
                forall|j: int| 0 <= j < c ==> row@[j] < ROLL_BOUND,
            decreases width - c,
        {
            let roll = gen_below(rng, ROLL_BOUND);
            row.push(roll);
            c = c + 1;
        }
        let ghost before = rolls.deep_view();
        rolls.push(row);
        assert(rolls.deep_view() =~~= before.push(row@));
        r = r + 1;
    }
    rolls
}

} // verus!
