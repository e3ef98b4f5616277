//! The number-guessing game: a secret between 1 and 100, and the verdict on
//! each guess.

use vstd::prelude::*;

verus! {

/// How a guess compares to the secret number.
#[derive(Debug, PartialEq, Eq, Structural, Clone, Copy)]
pub enum GuessOutcome {
    TooSmall,
    TooBig,
    Correct,
}

/// The verdict on a guess: too small, too big, or correct.
pub open spec fn guess_outcome_spec(guess: u32, secret: u32) -> GuessOutcome {
    if guess < secret {
        GuessOutcome::TooSmall
    } else if guess > secret {
        GuessOutcome::TooBig
    } else {
        GuessOutcome::Correct
    }
}

/// Compares a guess against the secret number.
pub fn evaluate_guess(guess: u32, secret: u32) -> (o: GuessOutcome)
    ensures
        o == guess_outcome_spec(guess, secret),
{
    if guess < secret {
        GuessOutcome::TooSmall
    } else if guess > secret {
        GuessOutcome::TooBig
    } else {
        GuessOutcome::Correct
    }
}

/// Relies on `rand::Rng::gen_range` over the half-open range `1..101`, which
/// returns a uniformly sampled number within that range and panics only on an
/// empty range.
#[verifier::external_body]
fn draw_secret_number() -> (n: u32)
    ensures
        1 <= n <= 100,
{
    rand::Rng::gen_range(&mut rand::thread_rng(), 1..101)
}

/// One round of the guessing game, holding a secret number between 1 and
/// 100, inclusive.
pub struct GuessingGame {
    secret: u32,
}

impl GuessingGame {
    /// The secret number.
    pub closed spec fn secret_spec(&self) -> u32 {
        self.secret
    }

    /// Whether the secret lies in the allowed range.
    pub open spec fn wf(&self) -> bool {
        1 <= self.secret_spec() <= 100
    }

    /// Starts a round with a randomly drawn secret between 1 and 100.
    pub fn new() -> (g: GuessingGame)
        ensures
            g.wf(),
    {
        GuessingGame { secret: draw_secret_number() }
    }

    /// The verdict on one guess: `Correct` exactly when the guess equals the
    /// secret, otherwise which side of it the guess falls on.
    pub fn check(&self, guess: u32) -> (o: GuessOutcome)
        ensures
            o == guess_outcome_spec(guess, self.secret_spec()),
            o is Correct <==> guess == self.secret_spec(),
    {
        evaluate_guess(guess, self.secret)
    }
}

} // verus!
