//! Core of an interactive, keyboard-driven query console.
//!
//! The library owns the session state machine: focus-area routing between
//! panels, the character-indexed query editor with its submission queue, and
//! the append-only store of completed result sets. Rendering, terminal input
//! and the concrete database backend stay outside; they reach the core only
//! through plain key events and the [`db::Queryable`] gateway trait.

pub mod areas;
pub mod db;
pub mod editor;
pub mod events;
pub mod store;
pub mod ui;
