//! What holds of every game and every line of input.

use vstd::prelude::*;

use crate::game::{Feedback, GameState};
use crate::input::line_value;

verus! {

/// A number within the bounds is never refused for its range: it is compared
/// with the secret.
pub proof fn lemma_in_range_never_corrected(g: GameState, line: Seq<char>, v: i32)
    requires
        g.wf(),
        line_value(line) == Some(v),
        g.min <= v <= g.max,
    ensures
        g.feedback(line) != Feedback::BelowMin(g.min),
        g.feedback(line) != Feedback::AboveMax(g.max),
        !g.feedback(line).is_correction(),
        g.feedback(line) == (if v < g.secret {
            Feedback::TooSmall
        } else if v > g.secret {
            Feedback::TooBig
        } else {
            Feedback::Win
        }),
{
}

/// A number below the lower bound earns the message naming that bound, one above
/// the upper bound the message naming that one; either way the game is unchanged
/// and waits for another line.
pub proof fn lemma_out_of_range_corrected(g: GameState, line: Seq<char>, v: i32)
    requires
        g.wf(),
        line_value(line) == Some(v),
        v < g.min || v > g.max,
    ensures
        v < g.min ==> g.feedback(line) == Feedback::BelowMin(g.min),
        v > g.max ==> g.feedback(line) == Feedback::AboveMax(g.max),
        g.next(line) == g,
{
}

/// A line that is not a number earns the request for a number, and the game is
/// unchanged and waits for another line.
pub proof fn lemma_not_a_number_corrected(g: GameState, line: Seq<char>)
    requires
        line_value(line) is None,
    ensures
        g.feedback(line) == Feedback::NotANumber,
        g.next(line) == g,
{
}

/// Whatever lines are submitted, the secret and the bounds stay as they were drawn.
pub proof fn lemma_secret_kept(g: GameState, lines: Seq<Seq<char>>)
    ensures
        g.run(lines).secret == g.secret,
        g.run(lines).min == g.min,
        g.run(lines).max == g.max,
        g.run(lines).wf() == g.wf(),
    decreases lines.len(),
{
    if lines.len() > 0 {
        lemma_secret_kept(g, lines.drop_last());
    }
}

/// `k` copies of one line.
pub open spec fn repeated(line: Seq<char>, k: nat) -> Seq<Seq<char>> {
    Seq::new(k, |i: int| line)
}

/// Submitting the same refused line any number of times earns the same correction
/// each time and leaves the game as it was.
pub proof fn lemma_corrections_repeat(g: GameState, line: Seq<char>, k: nat)
    requires
        g.wf(),
        g.feedback(line).is_correction(),
    ensures
        g.run(repeated(line, k)) == g,
        forall|i: nat| i < k ==> (#[trigger] g.run(repeated(line, i))).feedback(line) == g.feedback(line),
    decreases k,
{
    if k > 0 {
        lemma_corrections_repeat(g, line, (k - 1) as nat);
        assert(repeated(line, k).drop_last() =~= repeated(line, (k - 1) as nat));
    }
}

} // verus!
