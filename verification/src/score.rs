//! The score: one point for each obstacle that the bird has passed, and the
//! text that shows it.

use vstd::prelude::*;
use vstd::string::StringExecFns;
use crate::field::{
    despawn_border, indices_left_of, left_of, lemma_left_of_widens, DESPAWN_MARGIN, SPRITE_SIZE,
};
use crate::round::GameOver;

verus! {

/// Points scored in this round.
pub struct Score(pub u128);

/// The character of a single digit.
pub open spec fn digit(d: nat) -> char
    recommends
        d < 10,
{
    seq!['0', '1', '2', '3', '4', '5', '6', '7', '8', '9'][d as int]
}

/// A number in decimal notation, without leading zeros.
pub open spec fn decimal(n: nat) -> Seq<char>
    decreases n,
{
    if n < 10 {
        seq![digit(n)]
    } else {
        decimal(n / 10).push(digit(n % 10))
    }
}

/// The text of a number has at least one character.
pub proof fn lemma_decimal_len(n: nat)
    ensures
        decimal(n).len() >= 1,
        n >= 10 ==> decimal(n).len() >= 2,
    decreases n,
{
    if n >= 10 {
        lemma_decimal_len(n / 10);
    }
}

/// Two numbers with the same text are the same number.
pub proof fn lemma_decimal_injective(a: nat, b: nat)
    requires
        decimal(a) == decimal(b),
    ensures
        a == b,
    decreases a,
{
    lemma_decimal_len(a);
    lemma_decimal_len(b);
    if a < 10 {
        assert(decimal(a)[0] == digit(a));
        assert(decimal(b)[0] == digit(b));
    } else {
        let front_a = decimal(a / 10);
        let front_b = decimal(b / 10);
        assert(decimal(a).last() == digit(a % 10));
        assert(decimal(b).last() == digit(b % 10));
        assert(front_a == decimal(a).drop_last());
        assert(front_b == decimal(b).drop_last());
        lemma_decimal_injective(a / 10, b / 10);
    }
}

/// The text of a single digit.
fn digit_str(d: u8) -> (s: &'static str)
    requires
        d < 10,
    ensures
        s@ == seq![digit(d as nat)],
{
    proof {
        reveal_strlit("0");
        reveal_strlit("1");
        reveal_strlit("2");
        reveal_strlit("3");
        reveal_strlit("4");
        reveal_strlit("5");
        reveal_strlit("6");
        reveal_strlit("7");
        reveal_strlit("8");
        reveal_strlit("9");
    }
    match d {
        0 => "0",
        1 => "1",
        2 => "2",
        3 => "3",
        4 => "4",
        5 => "5",
        6 => "6",
        7 => "7",
        8 => "8",
        _ => "9",
    }
}

/// Writes `n` in decimal notation at the end of `out`.
fn write_decimal(n: u128, out: &mut String)
    ensures
        final(out)@ == old(out)@ + decimal(n as nat),
    decreases n,
{
    if n >= 10 {
        write_decimal(n / 10, out);
    }
    out.append(digit_str((n % 10) as u8));
}

impl Score {
    /// The score as it is shown: in decimal notation.
    pub fn text(&self) -> (shown: String)
        ensures
            shown@ == decimal(self.0 as nat),
    {
        let mut shown = String::new();
        write_decimal(self.0, &mut shown);
        shown
    }
}

/// No obstacle is taken away before it has been counted: on a field that is at
/// least as wide as the margin and the bird together, whatever lies behind the
/// despawn border lies left of the bird as well.
pub proof fn lemma_gone_was_passed(xs: Seq<i64>, width: u32)
    requires
        xs.len() <= usize::MAX,
        width >= DESPAWN_MARGIN + SPRITE_SIZE,
    ensures
        forall|k: int|
            0 <= k < left_of(xs, despawn_border(width)).len() ==> left_of(
                xs,
                -(SPRITE_SIZE as int),
            ).contains(#[trigger] left_of(xs, despawn_border(width))[k]),
{
    lemma_left_of_widens(xs, despawn_border(width), -(SPRITE_SIZE as int));
}

/// What one frame of counting comes to.
pub struct Tally {
    /// The obstacles that the bird has passed in this frame, as indices into
    /// the positions that were given: each has scored a point and leaves play.
    pub passed: Vec<usize>,
    /// The text of the score after the frame.
    pub text: String,
}

/// Counts the obstacles that the bird has passed. `xs` holds the positions of
/// the obstacles that are still in play: each one left of the bird scores a
/// point, and the text of the score is written anew. Once the round is over
/// nothing is counted or written any more, which `None` says.
pub fn display_intersection_info(score: &mut Score, game_over: &GameOver, xs: &Vec<i64>) -> (tally:
    Option<Tally>)
    requires
        !game_over.0 ==> old(score).0 + left_of(xs@, -(SPRITE_SIZE as int)).len() <= u128::MAX,
    ensures
        game_over.0 ==> tally is None && final(score).0 == old(score).0,
        !game_over.0 ==> {
            &&& tally matches Some(t)
            &&& t.passed@ == left_of(xs@, -(SPRITE_SIZE as int))
            &&& t.text@ == decimal(final(score).0 as nat)
            &&& final(score).0 == old(score).0 + t.passed@.len()
        },
{
    if game_over.0 {
        return None;
    }
    let border: i64 = -(SPRITE_SIZE as i64);
    let passed = indices_left_of(xs, border);
    score.0 = score.0 + passed.len() as u128;
    let text = score.text();
    Some(Tally { passed, text })
}

} // verus!
