//! A small collection of verified coding exercises: a Mars rover
//! instruction interpreter together with a handful of classic pure
//! functions (fizz buzz, leap years, Fibonacci numbers, Roman numerals)
//! and a tic-tac-toe game.

pub mod fibonacci;
pub mod fizz_buzz;
pub mod leap_year;
pub mod mars_rover;
pub mod roman_numerals;
pub mod text;
pub mod tic_tac_toe;
