//! Rules of a small two-player game, kept apart from the engine that draws it.
//!
//! The heart of the crate is [`input::ActionQueue`], which turns the set of
//! actions that are active in each tick into edge information: what was just
//! pressed, what is held, what was just released.
//!
//! Around it stand the other decisions of the game, each a function from
//! plain values to plain values: which keys a player uses ([`bindings`]), how
//! far a square moves ([`movement`]), which screen follows which ([`state`]),
//! and what a button of the splash screen does ([`menu`]).

pub mod bindings;
pub mod input;
pub mod menu;
pub mod movement;
pub mod state;
