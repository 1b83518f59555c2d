//! Navigation core of a keyboard-driven explorer for a namespace-addressed
//! key/value graph store.
//!
//! The store engine and the terminal are external collaborators: this crate
//! holds the parts worth proving, namely the wrap-around selection cursor,
//! the classification of key input, and the navigation state machine that
//! decides, for every screen and every event, what the next screen is and
//! which store fetches must complete before it is shown.

pub mod cursor;
pub mod data;
pub mod input;
pub mod state;
