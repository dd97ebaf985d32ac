//! A verified list-selection model for an interactive terminal widget.
//!
//! The library holds the model of a selectable list (ordered items, a
//! wrapping cursor, per-item selection flags), the key-dispatch rules of
//! the interactive session, and the computation of how each line is to be
//! styled. Terminal I/O itself lives outside the library.

pub mod input;
pub mod list;
pub mod render;
