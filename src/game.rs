//! The game: a secret number within inclusive bounds, and the judgement of each
//! line of text offered as a guess.

use vstd::prelude::*;

use crate::input::{line_value, parse_number};

verus! {

/// What a line of input earns: a request for a number, a request for one within
/// a bound, or the outcome of comparing a guess with the secret.
#[derive(Clone, Copy, Debug, PartialEq, Eq, Structural)]
pub enum Feedback {
    /// The line is not a number.
    NotANumber,
    /// The number is below the lower bound, which it names.
    BelowMin(i32),
    /// The number is above the upper bound, which it names.
    AboveMax(i32),
    /// The guess is smaller than the secret.
    TooSmall,
    /// The guess is bigger than the secret.
    TooBig,
    /// The guess is the secret.
    Win,
}

impl Feedback {
    /// Whether the feedback asks for the input again without a guess having been made.
    pub open spec fn is_correction(self) -> bool {
        match self {
            Feedback::NotANumber | Feedback::BelowMin(_) | Feedback::AboveMax(_) => true,
            _ => false,
        }
    }
}

/// The bound that `v` breaks, if any, of the inclusive range `[min, max]`.
pub open spec fn range_verdict(min: i32, max: i32, v: i32) -> Option<Feedback> {
    if v < min {
        Some(Feedback::BelowMin(min))
    } else if v > max {
        Some(Feedback::AboveMax(max))
    } else {
        None
    }
}

/// How a guess within the bounds compares with the secret.
pub open spec fn compare_verdict(guess: i32, secret: i32) -> Feedback {
    if guess < secret {
        Feedback::TooSmall
    } else if guess > secret {
        Feedback::TooBig
    } else {
        Feedback::Win
    }
}

/// The state of a game: the bounds, the secret, and whether it has been guessed.
pub ghost struct GameState {
    pub min: i32,
    pub max: i32,
    pub secret: i32,
    pub won: bool,
}

impl GameState {
    /// The bounds are ordered and the secret lies within them.
    pub open spec fn wf(self) -> bool {
        self.min <= self.max && self.min <= self.secret <= self.max
    }

    /// The feedback that a line of input earns.
    pub open spec fn feedback(self, line: Seq<char>) -> Feedback {
        match line_value(line) {
            None => Feedback::NotANumber,
            Some(v) => match range_verdict(self.min, self.max, v) {
                Some(f) => f,
                None => compare_verdict(v, self.secret),
            },
        }
    }

    /// The state after a line of input: it is won once the secret is guessed,
    /// and nothing else changes.
    pub open spec fn next(self, line: Seq<char>) -> GameState {
        GameState { won: self.won || self.feedback(line) == Feedback::Win, ..self }
    }

    /// The state after each line of `lines` in turn.
    pub open spec fn run(self, lines: Seq<Seq<char>>) -> GameState
        decreases lines.len(),
    {
        if lines.len() == 0 {
            self
        } else {
            self.run(lines.drop_last()).next(lines.last())
        }
    }
}

/// The range check on a number: `None` where `min <= v <= max`, else the
/// feedback that names the bound broken.
pub fn check_range(min: i32, max: i32, v: i32) -> (r: Option<Feedback>)
    ensures
        r == range_verdict(min, max, v),
        r.is_none() <==> min <= v <= max,
        v < min ==> r == Some(Feedback::BelowMin(min)),
        min <= v && v > max ==> r == Some(Feedback::AboveMax(max)),
{
    if v < min {
        Some(Feedback::BelowMin(min))
    } else if v > max {
        Some(Feedback::AboveMax(max))
    } else {
        None
    }
}

/// How a guess compares with the secret.
pub fn compare_guess(guess: i32, secret: i32) -> (r: Feedback)
    ensures
        r == compare_verdict(guess, secret),
{
    if guess < secret {
        Feedback::TooSmall
    } else if guess > secret {
        Feedback::TooBig
    } else {
        Feedback::Win
    }
}

/// Relies on rand's `thread_rng` sampled through `Uniform::new_inclusive`: a
/// value uniformly drawn from the closed range `[low, high]`; it panics only where
/// `low > high`.
#[verifier::external_body]
fn draw_between(low: i32, high: i32) -> (r: i32)
    requires
        low <= high,
    ensures
        low <= r <= high,
{
    rand::Rng::sample(&mut rand::thread_rng(), rand::distributions::Uniform::new_inclusive(low, high))
}

/// A game in progress, or won.
pub struct Game {
    min: i32,
    max: i32,
    secret: i32,
    won: bool,
}

impl View for Game {
    type V = GameState;

    closed spec fn view(&self) -> GameState {
        GameState { min: self.min, max: self.max, secret: self.secret, won: self.won }
    }
}

impl Game {
    /// A game over `[min, max]` with the given secret, not yet won.
    pub fn new(min: i32, max: i32, secret: i32) -> (r: Game)
        requires
            min <= secret <= max,
        ensures
            r@ == (GameState { min, max, secret, won: false }),
            r@.wf(),
    {
        Game { min, max, secret, won: false }
    }

    /// A game over `[min, max]` whose secret is drawn at random within the bounds.
    pub fn start(min: i32, max: i32) -> (r: Game)
        requires
            min <= max,
        ensures
            r@.min == min,
            r@.max == max,
            min <= r@.secret <= max,
            !r@.won,
            r@.wf(),
    {
        let secret = draw_between(min, max);
        Game::new(min, max, secret)
    }

    pub fn min(&self) -> (r: i32)
        ensures
            r == self@.min,
    {
        self.min
    }

    pub fn max(&self) -> (r: i32)
        ensures
            r == self@.max,
    {
        self.max
    }

    /// Whether the secret has been guessed.
    pub fn is_won(&self) -> (r: bool)
        ensures
            r == self@.won,
    {
        self.won
    }

    /// Judges a line of input: a line that is not a number, or a number outside
    /// the bounds, earns a correction; a number within them is compared with the
    /// secret, and the game is won when they are equal. The secret and the bounds
    /// never change.
    pub fn submit(&mut self, line: &str) -> (r: Feedback)
        ensures
            r == old(self)@.feedback(line@),
            final(self)@ == old(self)@.next(line@),
            final(self)@.secret == old(self)@.secret,
            final(self)@.min == old(self)@.min,
            final(self)@.max == old(self)@.max,
            final(self)@.won == (old(self)@.won || r == Feedback::Win),
    {
        let f = match parse_number(line) {
            None => Feedback::NotANumber,
            Some(v) => match check_range(self.min, self.max, v) {
                Some(f) => f,
                None => compare_guess(v, self.secret),
            },
        };
        if f == Feedback::Win {
            self.won = true;
        }
        f
    }
}

} // verus!
