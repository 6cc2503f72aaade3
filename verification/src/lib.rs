//! A single-line text input for terminal dashboards.
//!
//! The widget owns a text buffer, a cursor into it and two screen rectangles.
//! It reacts to decoded key and pointer events by moving the cursor or editing
//! the buffer, and reports whether the screen has to be drawn again.
//!
//! Positions count characters (Unicode scalar values), never bytes, so no
//! operation can split the encoding of a character.

pub mod chars;
pub mod event;
pub mod geometry;
pub mod grapheme;
pub mod input;
pub mod laws;
pub mod model;
pub mod words;

pub use event::{
    Action, KeyCode, KeyEvent, KeyModifiers, ModifierSet, MouseEvent, WidgetEventResult,
};
pub use geometry::Rect;
pub use input::TextInput;
pub use model::{Boundary, Outcome, TextInputState};
