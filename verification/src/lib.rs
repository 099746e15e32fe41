//! Core logic of a small first-person office puzzle game: the player walks an
//! office, picks up "line of code" blocks, merges them into ordered bundles,
//! scans and submits them at a terminal, and is graded against the level's
//! reference diff under a countdown timer.
//!
//! This crate holds the game's rules — the interaction resolver, the grouping
//! model, the level/scoring engine, the player state machine and the terminal
//! command interface — as verified functions over plain data. Engine concerns
//! (rendering, physics integration, audio mixing, asset loading) are left to
//! the embedding application; spatial quantities are carried here as integers
//! in thousandths of a scene unit.

use vstd::prelude::*;

pub mod audio;
pub mod code;
pub mod fsm;
pub mod grab_cursor;
pub mod interactable;
pub mod interactions;
pub mod level;
pub mod office;
pub mod player;
pub mod rng;
pub mod score;
pub mod state;
pub mod strings;
pub mod terminal;
pub mod text_sprite;
pub mod tools;
pub mod ui;
pub mod viewmodel;

verus! {

} // verus!
