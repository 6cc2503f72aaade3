//! The text input widget.

use crate::chars::{chars_of, string_of_prefix};
use crate::event::{Action, KeyEvent, MouseEvent, WidgetEventResult};
use crate::geometry::Rect;
use crate::grapheme::{grapheme_start, last_grapheme};
use crate::model::{Boundary, TextInputState};
use crate::words::{
    lemma_next_word_start, lemma_prev_word_start, word_start_after, word_start_before,
};
use vstd::prelude::*;

verus! {

/// A single-line component for taking text inputs.
///
/// The cursor is always the index of a character of the text, or the
/// position directly behind the last one.
pub struct TextInput {
    text: Vec<char>,
    cursor_index: usize,
    bounds: Rect,
    border_bounds: Rect,
}

impl View for TextInput {
    type V = TextInputState;

    closed spec fn view(&self) -> TextInputState {
        TextInputState {
            text: self.text@,
            cursor: self.cursor_index as int,
            bounds: self.bounds,
            border_bounds: self.border_bounds,
        }
    }
}

impl Default for TextInput {
    fn default() -> (input: Self)
        ensures
            input@ == TextInputState::empty(),
    {
        TextInput::new()
    }
}

impl TextInput {
    #[verifier::type_invariant]
    spec fn cursor_in_text(self) -> bool {
        self.cursor_index <= self.text.len()
    }

    /// Creates a new [`TextInput`]: no text, the cursor at 0, zero rectangles.
    pub fn new() -> (input: Self)
        ensures
            input@ == TextInputState::empty(),
    {
        TextInput {
            text: Vec::new(),
            cursor_index: 0,
            bounds: Rect::default(),
            border_bounds: Rect::default(),
        }
    }

    /// The text, as a string.
    pub fn text(&self) -> (text: String)
        ensures
            text@ == self@.text,
    {
        let text = string_of_prefix(&self.text, self.text.len());
        proof {
            assert(self.text@.take(self.text.len() as int) =~= self.text@);
        }
        text
    }

    /// The number of characters of the text.
    pub fn len(&self) -> (len: usize)
        ensures
            len == self@.text.len(),
    {
        self.text.len()
    }

    /// The position of the cursor.
    pub fn cursor_index(&self) -> (index: usize)
        ensures
            index == self@.cursor,
            self@.wf(),
    {
        proof {
            use_type_invariant(&*self);
        }
        self.cursor_index
    }

    /// Puts the cursor at `new_cursor_index`, which has to be a position of
    /// the text. Reports a redraw exactly if the cursor moved.
    pub fn set_cursor(&mut self, new_cursor_index: usize) -> (result: WidgetEventResult)
        requires
            new_cursor_index <= old(self)@.text.len(),
        ensures
            final(self)@ == old(self)@.set_cursor(new_cursor_index as int).state,
            result == old(self)@.set_cursor(new_cursor_index as int).result,
            final(self)@.wf(),
    {
        if self.cursor_index == new_cursor_index {
            WidgetEventResult::NoRedraw
        } else {
            self.cursor_index = new_cursor_index;
            WidgetEventResult::Redraw
        }
    }

    /// Moves the cursor left by `amount_to_subtract` positions, stopping at 0.
    pub fn move_back(&mut self, amount_to_subtract: usize) -> (result: WidgetEventResult)
        ensures
            final(self)@ == old(self)@.move_back(amount_to_subtract as int).state,
            result == old(self)@.move_back(amount_to_subtract as int).result,
            amount_to_subtract > 0 || old(self)@.cursor_on_text()
                ==> final(self)@.cursor_on_text(),
            final(self)@.wf(),
    {
        proof {
            use_type_invariant(&*self);
        }
        let target: usize = if amount_to_subtract >= self.cursor_index {
            0
        } else {
            self.cursor_index - amount_to_subtract
        };
        self.set_cursor(target)
    }

    /// Moves the cursor right by `amount_to_add` positions. A target at or
    /// behind the end of the text is replaced by the last character's index,
    /// or by 0 where the text is empty.
    pub fn move_forward(&mut self, amount_to_add: usize) -> (result: WidgetEventResult)
        ensures
            final(self)@ == old(self)@.move_forward(amount_to_add as int).state,
            result == old(self)@.move_forward(amount_to_add as int).result,
            final(self)@.cursor_on_text(),
            final(self)@.wf(),
    {
        proof {
            use_type_invariant(&*self);
        }
        let len: usize = self.text.len();
        let target: usize = if amount_to_add >= len - self.cursor_index {
            if len == 0 {
                0
            } else {
                len - 1
            }
        } else {
            self.cursor_index + amount_to_add
        };
        self.set_cursor(target)
    }

    /// Empties the text and puts the cursor at 0. Reports a redraw exactly if
    /// there was text.
    pub fn clear_text(&mut self) -> (result: WidgetEventResult)
        ensures
            final(self)@ == old(self)@.clear_text().state,
            result == old(self)@.clear_text().result,
            old(self)@.text.len() == 0 ==> result == WidgetEventResult::NoRedraw && final(self)@
                == old(self)@,
            old(self)@.text.len() > 0 ==> result == WidgetEventResult::Redraw
                && final(self)@.text.len() == 0 && final(self)@.cursor == 0,
            final(self)@.wf(),
    {
        proof {
            use_type_invariant(&*self);
        }
        if self.text.len() == 0 {
            WidgetEventResult::NoRedraw
        } else {
            self.cursor_index = 0;
            self.text = Vec::new();
            WidgetEventResult::Redraw
        }
    }

    /// Finds the boundary of the given kind that precedes the cursor. It
    /// lies before the cursor, except at position 0, where it is 0. For a
    /// grapheme boundary, the characters between it and the cursor are the
    /// last grapheme cluster of the text before the cursor.
    pub fn previous_boundary(&self, kind: Boundary) -> (start: usize)
        ensures
            start == self@.previous_boundary(kind),
            start <= self@.cursor,
            self@.cursor > 0 ==> start < self@.cursor,
            kind == Boundary::Grapheme && self@.cursor > 0 ==> last_grapheme(
                self@.text.take(self@.cursor),
            ) == Some(self@.text.subrange(start as int, self@.cursor)),
    {
        proof {
            use_type_invariant(&*self);
            lemma_prev_word_start(self.text@, self.cursor_index as int);
        }
        match kind {
            Boundary::Word => word_start_before(&self.text, self.cursor_index),
            Boundary::Grapheme => grapheme_start(&self.text, self.cursor_index),
        }
    }

    /// Deletes the characters from `start` up to the cursor and puts the
    /// cursor at `start`. Where `start` does not lie before the cursor,
    /// nothing changes and no redraw is due.
    pub fn clear_back_to(&mut self, start: usize) -> (result: WidgetEventResult)
        ensures
            final(self)@ == old(self)@.clear_back_to(start as int).state,
            result == old(self)@.clear_back_to(start as int).result,
            final(self)@.wf(),
    {
        proof {
            use_type_invariant(&*self);
        }
        if start < self.cursor_index {
            let cursor: usize = self.cursor_index;
            let mut text: Vec<char> = Vec::new();
            self.cursor_index = 0;
            std::mem::swap(&mut text, &mut self.text);
            let mut rest = text.split_off(cursor);
            text.truncate(start);
            text.append(&mut rest);
            proof {
                assert(text@ =~= old(self).text@.take(start as int) + old(self).text@.skip(
                    cursor as int,
                ));
            }
            self.text = text;
            self.cursor_index = start;
            WidgetEventResult::Redraw
        } else {
            WidgetEventResult::NoRedraw
        }
    }

    /// Moves the cursor to the start of the next word, or behind the text
    /// where no word follows.
    pub fn move_word_forward(&mut self) -> (result: WidgetEventResult)
        ensures
            final(self)@ == old(self)@.move_word_forward().state,
            result == old(self)@.move_word_forward().result,
            final(self)@.wf(),
    {
        proof {
            lemma_next_word_start(self.text@, self.cursor_index as int);
        }
        let target: usize = word_start_after(&self.text, self.cursor_index);
        self.set_cursor(target)
    }

    /// Moves the cursor to the start of the word it is in or behind, or to 0
    /// where no word starts before it.
    pub fn move_word_back(&mut self) -> (result: WidgetEventResult)
        ensures
            final(self)@ == old(self)@.move_word_back().state,
            result == old(self)@.move_word_back().result,
            final(self)@.wf(),
    {
        proof {
            use_type_invariant(&*self);
        }
        let target: usize = self.previous_boundary(Boundary::Word);
        self.set_cursor(target)
    }

    /// Deletes the text between the previous word start and the cursor, and
    /// puts the cursor there. At position 0 nothing changes; anywhere else
    /// something is deleted and a redraw is due.
    pub fn clear_previous_word(&mut self) -> (result: WidgetEventResult)
        ensures
            final(self)@ == old(self)@.clear_previous_word().state,
            result == old(self)@.clear_previous_word().result,
            result == WidgetEventResult::redraw_if(old(self)@.cursor > 0),
            final(self)@.wf(),
    {
        let start: usize = self.previous_boundary(Boundary::Word);
        self.clear_back_to(start)
    }

    /// Deletes the one grapheme cluster that ends at the cursor, and moves
    /// the cursor back by its length. At position 0 nothing changes; anywhere
    /// else the deleted characters are exactly the last grapheme cluster of
    /// the text before the cursor, and a redraw is due.
    pub fn clear_previous_grapheme(&mut self) -> (result: WidgetEventResult)
        ensures
            final(self)@ == old(self)@.clear_previous_grapheme().state,
            result == old(self)@.clear_previous_grapheme().result,
            result == WidgetEventResult::redraw_if(old(self)@.cursor > 0),
            old(self)@.cursor > 0 ==> last_grapheme(old(self)@.text.take(old(self)@.cursor))
                == Some(old(self)@.text.subrange(final(self)@.cursor, old(self)@.cursor)),
            final(self)@.wf(),
    {
        let start: usize = self.previous_boundary(Boundary::Grapheme);
        self.clear_back_to(start)
    }

    /// Replaces the text with `new_text`. A cursor that is then at or behind
    /// the end of the text goes to the last character, or to 0 where the new
    /// text is empty.
    pub fn update(&mut self, new_text: String)
        ensures
            final(self)@ == old(self)@.update(new_text@),
            final(self)@.cursor_on_text(),
            final(self)@.wf(),
    {
        let text: Vec<char> = chars_of(new_text.as_str());
        let len: usize = text.len();
        if self.cursor_index >= len {
            self.cursor_index = 0;
            self.text = text;
            self.cursor_index = if len == 0 {
                0
            } else {
                len - 1
            };
        } else {
            self.text = text;
        }
    }

    /// The content rectangle.
    pub fn bounds(&self) -> (bounds: Rect)
        ensures
            bounds == self@.bounds,
    {
        self.bounds
    }

    /// Sets the content rectangle. Text and cursor stay as they are.
    pub fn set_bounds(&mut self, new_bounds: Rect)
        ensures
            final(self)@ == (TextInputState { bounds: new_bounds, ..old(self)@ }),
    {
        proof {
            use_type_invariant(&*self);
        }
        self.bounds = new_bounds;
    }

    /// The rectangle that includes the border.
    pub fn border_bounds(&self) -> (bounds: Rect)
        ensures
            bounds == self@.border_bounds,
    {
        self.border_bounds
    }

    /// Sets the rectangle that includes the border. Text and cursor stay as
    /// they are.
    pub fn set_border_bounds(&mut self, new_bounds: Rect)
        ensures
            final(self)@ == (TextInputState { border_bounds: new_bounds, ..old(self)@ }),
    {
        proof {
            use_type_invariant(&*self);
        }
        self.border_bounds = new_bounds;
    }

    /// Carries out an editing action.
    pub fn apply(&mut self, action: Action) -> (result: WidgetEventResult)
        ensures
            final(self)@ == old(self)@.apply(action).state,
            result == old(self)@.apply(action).result,
            final(self)@.wf(),
    {
        proof {
            use_type_invariant(&*self);
        }
        match action {
            Action::Ignore => WidgetEventResult::NoRedraw,
            Action::MoveBack => self.move_back(1),
            Action::MoveForward => self.move_forward(1),
            Action::LineStart => self.set_cursor(0),
            Action::LineEnd => {
                let end: usize = self.text.len();
                self.set_cursor(end)
            },
            Action::MoveWordBack => self.move_word_back(),
            Action::MoveWordForward => self.move_word_forward(),
            Action::ClearText => self.clear_text(),
            Action::ClearPreviousWord => self.clear_previous_word(),
            Action::ClearPreviousGrapheme => self.clear_previous_grapheme(),
        }
    }

    /// Handles a key press by carrying out the action that the key table
    /// binds to it. Keys without a binding change nothing.
    pub fn handle_key_event(&mut self, event: KeyEvent) -> (result: WidgetEventResult)
        ensures
            final(self)@ == old(self)@.handle_key_event(event).state,
            result == old(self)@.handle_key_event(event).result,
            final(self)@.wf(),
    {
        let action = event.to_action();
        self.apply(action)
    }

    /// Handles a pointer press, which is taken to lie within the widget. The
    /// cursor goes to the character in the pointer's column, counted from the
    /// left edge of the content rectangle, or to the last character where the
    /// column lies at or behind the end of the text. A redraw is always due.
    pub fn handle_mouse_event(&mut self, event: MouseEvent) -> (result: WidgetEventResult)
        ensures
            final(self)@ == old(self)@.handle_mouse_event(event).state,
            result == old(self)@.handle_mouse_event(event).result,
            result == WidgetEventResult::Redraw,
            final(self)@.cursor_on_text(),
            final(self)@.wf(),
    {
        let x: u16 = event.column;
        let widget_x: u16 = self.bounds.x;
        let new_cursor_index: usize = if x >= widget_x {
            (x - widget_x) as usize
        } else {
            0
        };
        let len: usize = self.text.len();
        if new_cursor_index >= len {
            self.cursor_index = if len == 0 {
                0
            } else {
                len - 1
            };
        } else {
            self.cursor_index = new_cursor_index;
        }
        WidgetEventResult::Redraw
    }
}

} // verus!
