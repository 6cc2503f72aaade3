//! The widget as a mathematical state machine: its state, and every operation
//! as a function from a state to the next state and the redraw signal.

use crate::event::{Action, KeyEvent, MouseEvent, WidgetEventResult};
use crate::geometry::Rect;
use crate::grapheme::grapheme_start_before;
use crate::words::{next_word_start, prev_word_start};
use vstd::prelude::*;

verus! {

/// The two kinds of boundary an edit can reach back to.
#[derive(Clone, Copy, Debug, PartialEq, Eq, Structural)]
pub enum Boundary {
    /// The start of the current or previous word.
    Word,
    /// The start of the grapheme cluster that ends at the cursor.
    Grapheme,
}

/// What the widget holds: the text as a sequence of characters, the cursor as
/// an index into it, and the two rectangles.
pub struct TextInputState {
    pub text: Seq<char>,
    pub cursor: int,
    pub bounds: Rect,
    pub border_bounds: Rect,
}

/// The state after an operation, and what the operation reports.
pub struct Outcome {
    pub state: TextInputState,
    pub result: WidgetEventResult,
}

impl TextInputState {
    /// The state of a new widget: no text, cursor at 0, zero rectangles.
    pub open spec fn empty() -> TextInputState {
        TextInputState {
            text: Seq::empty(),
            cursor: 0,
            bounds: Rect::zero(),
            border_bounds: Rect::zero(),
        }
    }

    /// The cursor lies in the text or directly behind it.
    pub open spec fn wf(self) -> bool {
        0 <= self.cursor <= self.text.len()
    }

    /// The index of the last character, or 0 for the empty text.
    pub open spec fn last_position(self) -> int {
        if self.text.len() == 0 {
            0
        } else {
            self.text.len() - 1
        }
    }

    /// The cursor is on a character, or at 0 in the empty text.
    pub open spec fn cursor_on_text(self) -> bool {
        0 <= self.cursor <= self.last_position()
    }

    /// `target` if it is the index of a character, else the last position.
    pub open spec fn clamp(self, target: int) -> int {
        if target >= self.text.len() {
            self.last_position()
        } else {
            target
        }
    }

    /// This state left as it is, with nothing to draw.
    pub open spec fn unchanged(self) -> Outcome {
        Outcome { state: self, result: WidgetEventResult::NoRedraw }
    }

    /// Puts the cursor at `index`; a redraw is due if that moved it.
    pub open spec fn set_cursor(self, index: int) -> Outcome {
        Outcome {
            state: TextInputState { cursor: index, ..self },
            result: WidgetEventResult::redraw_if(index != self.cursor),
        }
    }

    /// Moves the cursor left by `amount`, stopping at 0.
    pub open spec fn move_back(self, amount: int) -> Outcome {
        self.set_cursor(
            if amount >= self.cursor {
                0
            } else {
                self.cursor - amount
            },
        )
    }

    /// Moves the cursor right by `amount`, stopping at the last character.
    pub open spec fn move_forward(self, amount: int) -> Outcome {
        self.set_cursor(self.clamp(self.cursor + amount))
    }

    /// Empties the text; a redraw is due if there was any.
    pub open spec fn clear_text(self) -> Outcome {
        if self.text.len() == 0 {
            self.unchanged()
        } else {
            Outcome {
                state: TextInputState { text: Seq::empty(), cursor: 0, ..self },
                result: WidgetEventResult::Redraw,
            }
        }
    }

    /// The boundary of the given kind that precedes the cursor.
    pub open spec fn previous_boundary(self, kind: Boundary) -> int {
        match kind {
            Boundary::Word => prev_word_start(self.text, self.cursor),
            Boundary::Grapheme => grapheme_start_before(self.text, self.cursor),
        }
    }

    /// Deletes the characters from `start` up to the cursor and puts the
    /// cursor at `start`. Nothing happens unless `start` lies before the
    /// cursor.
    pub open spec fn clear_back_to(self, start: int) -> Outcome {
        if 0 <= start < self.cursor {
            Outcome {
                state: TextInputState {
                    text: self.text.take(start) + self.text.skip(self.cursor),
                    cursor: start,
                    ..self
                },
                result: WidgetEventResult::Redraw,
            }
        } else {
            self.unchanged()
        }
    }

    /// Moves the cursor to the start of the next word, or behind the text.
    pub open spec fn move_word_forward(self) -> Outcome {
        self.set_cursor(next_word_start(self.text, self.cursor))
    }

    /// Moves the cursor to the start of the current or previous word, or to 0.
    pub open spec fn move_word_back(self) -> Outcome {
        self.set_cursor(self.previous_boundary(Boundary::Word))
    }

    /// Deletes from the previous word start up to the cursor.
    pub open spec fn clear_previous_word(self) -> Outcome {
        self.clear_back_to(self.previous_boundary(Boundary::Word))
    }

    /// Deletes the grapheme cluster that ends at the cursor.
    pub open spec fn clear_previous_grapheme(self) -> Outcome {
        self.clear_back_to(self.previous_boundary(Boundary::Grapheme))
    }

    /// Replaces the text. A cursor that is no longer the index of a character
    /// goes to the last position.
    pub open spec fn update(self, text: Seq<char>) -> TextInputState {
        let replaced = TextInputState { text, ..self };
        TextInputState { cursor: replaced.clamp(self.cursor), ..replaced }
    }

    /// Carries out an editing action.
    pub open spec fn apply(self, action: Action) -> Outcome {
        match action {
            Action::Ignore => self.unchanged(),
            Action::MoveBack => self.move_back(1),
            Action::MoveForward => self.move_forward(1),
            Action::LineStart => self.set_cursor(0),
            Action::LineEnd => self.set_cursor(self.text.len() as int),
            Action::MoveWordBack => self.move_word_back(),
            Action::MoveWordForward => self.move_word_forward(),
            Action::ClearText => self.clear_text(),
            Action::ClearPreviousWord => self.clear_previous_word(),
            Action::ClearPreviousGrapheme => self.clear_previous_grapheme(),
        }
    }

    /// Handles a key press: the action the key table binds to it.
    pub open spec fn handle_key_event(self, event: KeyEvent) -> Outcome {
        self.apply(event.action())
    }

    /// The text position a click in column `column` points at: the distance
    /// from the left edge of `bounds`, or 0 for a click left of it.
    pub open spec fn column_position(self, column: u16) -> int {
        if column >= self.bounds.x {
            column - self.bounds.x
        } else {
            0
        }
    }

    /// Handles a pointer press: the cursor goes to the character under the
    /// pointer, or to the last one. A redraw is always due.
    pub open spec fn handle_mouse_event(self, event: MouseEvent) -> Outcome {
        Outcome {
            state: TextInputState {
                cursor: self.clamp(self.column_position(event.column)),
                ..self
            },
            result: WidgetEventResult::Redraw,
        }
    }
}

} // verus!
