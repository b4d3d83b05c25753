//! A number-guessing game: a secret integer is drawn within inclusive bounds,
//! and each line of text offered as a guess is judged against it.

pub mod input;
pub mod game;
pub mod laws;
pub mod message;
