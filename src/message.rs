//! The text shown to the player: prompts and the wording of each feedback.

use vstd::prelude::*;
use vstd::string::*;

use crate::game::{Feedback, Game, GameState};

verus! {

/// The character of the decimal digit `d`.
pub open spec fn digit_char(d: int) -> char {
    (d + '0' as int) as char
}

/// The decimal digits of `n`, most significant first, without leading zeros.
pub open spec fn decimal(n: nat) -> Seq<char>
    decreases n,
{
    if n < 10 {
        seq![digit_char(n as int)]
    } else {
        decimal(n / 10).push(digit_char((n % 10) as int))
    }
}

/// An integer written in decimal, with a leading `-` when it is negative.
pub open spec fn signed_decimal(v: int) -> Seq<char> {
    if v < 0 {
        seq!['-'] + decimal((-v) as nat)
    } else {
        decimal(v as nat)
    }
}

/// The wording of each feedback.
pub open spec fn feedback_text(f: Feedback) -> Seq<char> {
    match f {
        Feedback::NotANumber => "Please input a number."@,
        Feedback::BelowMin(m) => "Please input a number that is at least "@ + signed_decimal(
            m as int,
        ) + "."@,
        Feedback::AboveMax(m) => "Please input a number that is no larger than "@ + signed_decimal(
            m as int,
        ) + "."@,
        Feedback::TooSmall => "Too small!"@,
        Feedback::TooBig => "Too big!"@,
        Feedback::Win => "You win!"@,
    }
}

/// The prompt for a guess, naming the bounds.
pub open spec fn prompt_text(g: GameState) -> Seq<char> {
    "Please input your guess, between "@ + signed_decimal(g.min as int) + " and "@
        + signed_decimal(g.max as int) + "."@
}

fn digit_str(d: u64) -> (r: &'static str)
    requires
        d < 10,
    ensures
        r@ == seq![digit_char(d as int)],
{
    proof {
        reveal_strlit("0");
        reveal_strlit("1");
        reveal_strlit("2");
        reveal_strlit("3");
        reveal_strlit("4");
        reveal_strlit("5");
        reveal_strlit("6");
        reveal_strlit("7");
        reveal_strlit("8");
        reveal_strlit("9");
    }
    let r = if d == 0 {
        "0"
    } else if d == 1 {
        "1"
    } else if d == 2 {
        "2"
    } else if d == 3 {
        "3"
    } else if d == 4 {
        "4"
    } else if d == 5 {
        "5"
    } else if d == 6 {
        "6"
    } else if d == 7 {
        "7"
    } else if d == 8 {
        "8"
    } else {
        "9"
    };
    assert(r@ =~= seq![digit_char(d as int)]);
    r
}

fn append_decimal(out: &mut String, n: u64)
    ensures
        final(out)@ == old(out)@ + decimal(n as nat),
    decreases n,
{
    if n >= 10 {
        append_decimal(out, n / 10);
    }
    out.append(digit_str(n % 10));
    assert(final(out)@ =~= old(out)@ + decimal(n as nat));
}

/// Appends `v` written in decimal.
pub fn append_signed(out: &mut String, v: i32)
    ensures
        final(out)@ == old(out)@ + signed_decimal(v as int),
{
    if v < 0 {
        out.append("-");
        proof {
            reveal_strlit("-");
        }
        let m: u64 = (0 - (v as i64)) as u64;
        append_decimal(out, m);
        assert(final(out)@ =~= old(out)@ + signed_decimal(v as int));
    } else {
        append_decimal(out, v as u64);
    }
}

impl Feedback {
    /// The text that tells the player this feedback.
    pub fn message(&self) -> (r: String)
        ensures
            r@ == feedback_text(*self),
    {
        match self {
            Feedback::NotANumber => String::from_str("Please input a number."),
            Feedback::BelowMin(m) => {
                let mut s = String::from_str("Please input a number that is at least ");
                append_signed(&mut s, *m);
                s.append(".");
                s
            },
            Feedback::AboveMax(m) => {
                let mut s = String::from_str("Please input a number that is no larger than ");
                append_signed(&mut s, *m);
                s.append(".");
                s
            },
            Feedback::TooSmall => String::from_str("Too small!"),
            Feedback::TooBig => String::from_str("Too big!"),
            Feedback::Win => String::from_str("You win!"),
        }
    }
}

impl Game {
    /// The prompt for a guess, naming the bounds.
    pub fn prompt(&self) -> (r: String)
        ensures
            r@ == prompt_text(self@),
    {
        let mut s = String::from_str("Please input your guess, between ");
        append_signed(&mut s, self.min());
        s.append(" and ");
        append_signed(&mut s, self.max());
        s.append(".");
        s
    }
}

} // verus!
