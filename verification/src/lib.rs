//! A two-player code-breaking game (Mastermind / bulls-and-cows family).
//!
//! The core of the library is the scoring engine, which compares a guess
//! against a secret code and reports exact (right symbol, right place) and
//! colour (right symbol, wrong place) matches, and the secret-consistency
//! validator, which decides whether a replacement secret agrees with the
//! scores already revealed for earlier guesses.

pub mod scoring;
pub mod text;
pub mod game;
pub mod pin;
pub mod feedback;
pub mod code;
pub mod colors;
pub mod ui;
pub mod display;
pub mod gameloop;

pub use scoring::Score;
