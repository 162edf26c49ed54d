//! A five-letter word guessing game: the word pool, the per-letter feedback
//! on a guess, and the state machine that a front end drives with key presses.

pub mod app;
pub mod display;
pub mod feedback;
pub mod game;
pub mod keys;
pub mod lines;
pub mod strings;
pub mod word_list;
pub mod words;
