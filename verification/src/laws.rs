//! What holds of the widget's operations, whatever the state and the input.

use crate::event::{Action, MouseEvent, WidgetEventResult};
use crate::grapheme::last_grapheme;
use crate::model::TextInputState;
use crate::words::{is_single_line, lemma_next_word_start, lemma_prev_word_start};
use vstd::prelude::*;

verus! {

/// Moving forward never leaves the text: afterwards the cursor is on a
/// character, or at 0 where the text is empty.
pub proof fn lemma_move_forward_stays_on_text(state: TextInputState, amount: int)
    requires
        state.wf(),
        amount >= 0,
    ensures
        state.move_forward(amount).state.cursor_on_text(),
        state.text.len() > 0 ==> 0 <= state.move_forward(amount).state.cursor <= state.text.len()
            - 1,
        state.text.len() == 0 ==> state.move_forward(amount).state.cursor == 0,
{
}

/// Moving back never leaves the text: afterwards the cursor is on a
/// character, or at 0 where the text is empty. The one case left out is a
/// move by nothing with the cursor behind the last character, which stays
/// where it is.
pub proof fn lemma_move_back_stays_on_text(state: TextInputState, amount: int)
    requires
        state.wf(),
        amount >= 0,
        !(amount == 0 && state.cursor == state.text.len() && state.text.len() > 0),
    ensures
        state.move_back(amount).state.cursor_on_text(),
        state.text.len() > 0 ==> 0 <= state.move_back(amount).state.cursor <= state.text.len() - 1,
        state.text.len() == 0 ==> state.move_back(amount).state.cursor == 0,
{
}

/// Setting the cursor is idempotent: the first call reports a redraw exactly
/// if the cursor was elsewhere, and a second call with the same index
/// changes nothing and reports none.
pub proof fn lemma_set_cursor_idempotent(state: TextInputState, index: int)
    ensures
        state.set_cursor(index).result == WidgetEventResult::redraw_if(index != state.cursor),
        state.set_cursor(index).state.cursor == index,
        state.set_cursor(index).state.set_cursor(index).result == WidgetEventResult::NoRedraw,
        state.set_cursor(index).state.set_cursor(index).state == state.set_cursor(index).state,
{
}

/// Clearing an empty text changes nothing and reports no redraw; clearing
/// any other text leaves it empty with the cursor at 0 and reports a redraw.
/// Either way a second clearing reports none.
pub proof fn lemma_clear_text(state: TextInputState)
    ensures
        state.text.len() == 0 ==> state.clear_text() == state.unchanged(),
        state.text.len() > 0 ==> state.clear_text().result == WidgetEventResult::Redraw
            && state.clear_text().state.text.len() == 0 && state.clear_text().state.cursor == 0,
        state.clear_text().state.clear_text().result == WidgetEventResult::NoRedraw,
{
}

/// A text that is one grapheme cluster, however many characters that takes,
/// is deleted whole by one deletion from its end.
pub proof fn lemma_clear_single_grapheme(state: TextInputState)
    requires
        state.text.len() > 0,
        state.cursor == state.text.len(),
        last_grapheme(state.text) == Some(state.text),
    ensures
        state.clear_previous_grapheme().state.text.len() == 0,
        state.clear_previous_grapheme().state.cursor == 0,
        state.clear_previous_grapheme().result == WidgetEventResult::Redraw,
{
    assert(state.text.take(state.cursor) =~= state.text);
}

/// No action moves the cursor out of the text, and none touches the
/// rectangles.
pub proof fn lemma_apply_preserves_wf(state: TextInputState, action: Action)
    requires
        state.wf(),
    ensures
        state.apply(action).state.wf(),
        state.apply(action).state.bounds == state.bounds,
        state.apply(action).state.border_bounds == state.border_bounds,
{
    lemma_prev_word_start(state.text, state.cursor);
    lemma_next_word_start(state.text, state.cursor);
}

/// A pointer press leaves the cursor on a character, or at 0 in the empty
/// text, and touches neither the text nor the rectangles.
pub proof fn lemma_mouse_event_stays_on_text(state: TextInputState, event: MouseEvent)
    ensures
        state.handle_mouse_event(event).state.cursor_on_text(),
        state.handle_mouse_event(event).state.wf(),
        state.handle_mouse_event(event).state.text == state.text,
        state.handle_mouse_event(event).state.bounds == state.bounds,
        state.handle_mouse_event(event).state.border_bounds == state.border_bounds,
{
}

/// Replacing the text leaves the cursor on a character of the new text, or
/// at 0 where the new text is empty.
pub proof fn lemma_update_stays_on_text(state: TextInputState, text: Seq<char>)
    requires
        state.wf(),
    ensures
        state.update(text).cursor_on_text(),
        state.update(text).wf(),
        state.update(text).text == text,
        state.cursor < text.len() ==> state.update(text).cursor == state.cursor,
{
}

/// No action brings a line break into the text, and no action but a deletion
/// or a clearing changes the text at all.
pub proof fn lemma_apply_preserves_single_line(state: TextInputState, action: Action)
    requires
        state.wf(),
        is_single_line(state.text),
    ensures
        is_single_line(state.apply(action).state.text),
        state.apply(action).state.text.len() <= state.text.len(),
        !(action is ClearText || action is ClearPreviousWord || action is ClearPreviousGrapheme)
            ==> state.apply(action).state.text == state.text,
{
}

} // verus!
