use text_input::{Rect, TextInput, WidgetEventResult};

fn input_with(text: &str, cursor: usize) -> TextInput {
    let mut input = TextInput::new();
    input.update(text.to_string());
    input.set_cursor(cursor);
    input
}

#[test]
fn new_input_is_empty() {
    let input = TextInput::new();
    assert_eq!(input.text(), "");
    assert_eq!(input.len(), 0);
    assert_eq!(input.cursor_index(), 0);
    assert_eq!(input.bounds(), Rect { x: 0, y: 0, width: 0, height: 0 });
    assert_eq!(input.border_bounds(), Rect { x: 0, y: 0, width: 0, height: 0 });
}

#[test]
fn default_input_is_empty() {
    let input = TextInput::default();
    assert_eq!(input.text(), "");
    assert_eq!(input.cursor_index(), 0);
    assert_eq!(input.bounds(), Rect::default());
    assert_eq!(input.border_bounds(), Rect::default());
}

#[test]
fn default_rect_is_zero() {
    assert_eq!(Rect::default(), Rect { x: 0, y: 0, width: 0, height: 0 });
}

#[test]
fn set_cursor_redraws_then_does_not() {
    let mut input = input_with("hello", 0);
    assert_eq!(input.set_cursor(3), WidgetEventResult::Redraw);
    assert_eq!(input.cursor_index(), 3);
    assert_eq!(input.set_cursor(3), WidgetEventResult::NoRedraw);
    assert_eq!(input.cursor_index(), 3);
}

#[test]
fn set_cursor_to_current_index_does_not_redraw() {
    let mut input = input_with("hello", 2);
    assert_eq!(input.set_cursor(2), WidgetEventResult::NoRedraw);
    assert_eq!(input.cursor_index(), 2);
}

#[test]
fn set_cursor_accepts_the_end_of_the_text() {
    let mut input = input_with("hello", 0);
    assert_eq!(input.set_cursor(5), WidgetEventResult::Redraw);
    assert_eq!(input.cursor_index(), 5);
    assert_eq!(input.text(), "hello");
}

#[test]
fn move_back_subtracts() {
    let mut input = input_with("hello", 4);
    assert_eq!(input.move_back(1), WidgetEventResult::Redraw);
    assert_eq!(input.cursor_index(), 3);
    assert_eq!(input.move_back(2), WidgetEventResult::Redraw);
    assert_eq!(input.cursor_index(), 1);
}

#[test]
fn move_back_saturates_at_zero() {
    let mut input = input_with("hello", 2);
    assert_eq!(input.move_back(7), WidgetEventResult::Redraw);
    assert_eq!(input.cursor_index(), 0);
    assert_eq!(input.move_back(1), WidgetEventResult::NoRedraw);
    assert_eq!(input.cursor_index(), 0);
    assert_eq!(input.move_back(usize::MAX), WidgetEventResult::NoRedraw);
    assert_eq!(input.cursor_index(), 0);
}

#[test]
fn move_back_by_nothing_stays_behind_the_text() {
    let mut input = input_with("hello", 5);
    assert_eq!(input.move_back(0), WidgetEventResult::NoRedraw);
    assert_eq!(input.cursor_index(), 5);
}

#[test]
fn move_forward_adds() {
    let mut input = input_with("hello", 0);
    assert_eq!(input.move_forward(1), WidgetEventResult::Redraw);
    assert_eq!(input.cursor_index(), 1);
    assert_eq!(input.move_forward(2), WidgetEventResult::Redraw);
    assert_eq!(input.cursor_index(), 3);
}

#[test]
fn move_forward_clamps_to_last_character() {
    let mut input = input_with("hello", 3);
    assert_eq!(input.move_forward(2), WidgetEventResult::Redraw);
    assert_eq!(input.cursor_index(), 4);
    assert_eq!(input.move_forward(1), WidgetEventResult::NoRedraw);
    assert_eq!(input.cursor_index(), 4);
    assert_eq!(input.move_forward(usize::MAX), WidgetEventResult::NoRedraw);
    assert_eq!(input.cursor_index(), 4);
}

#[test]
fn move_forward_from_behind_the_text_steps_onto_it() {
    let mut input = input_with("hello", 5);
    assert_eq!(input.move_forward(0), WidgetEventResult::Redraw);
    assert_eq!(input.cursor_index(), 4);
}

#[test]
fn move_forward_on_empty_text_stays_at_zero() {
    let mut input = TextInput::new();
    assert_eq!(input.move_forward(1), WidgetEventResult::NoRedraw);
    assert_eq!(input.cursor_index(), 0);
    assert_eq!(input.move_forward(0), WidgetEventResult::NoRedraw);
    assert_eq!(input.cursor_index(), 0);
    assert_eq!(input.text(), "");
}

#[test]
fn move_back_on_empty_text_stays_at_zero() {
    let mut input = TextInput::new();
    assert_eq!(input.move_back(1), WidgetEventResult::NoRedraw);
    assert_eq!(input.cursor_index(), 0);
}

#[test]
fn moves_stay_on_the_text() {
    let text = "abcdef";
    for cursor in 0..=text.len() {
        for amount in 0..10usize {
            let mut forward = input_with(text, cursor);
            forward.move_forward(amount);
            assert!(forward.cursor_index() <= text.len() - 1);
            assert_eq!(forward.cursor_index(), (cursor + amount).min(text.len() - 1));

            let mut back = input_with(text, cursor);
            back.move_back(amount);
            assert_eq!(back.cursor_index(), cursor.saturating_sub(amount));
            if amount > 0 || cursor < text.len() {
                assert!(back.cursor_index() <= text.len() - 1);
            }
        }
    }
}

#[test]
fn clear_text_on_empty_text_does_not_redraw() {
    let mut input = TextInput::new();
    assert_eq!(input.clear_text(), WidgetEventResult::NoRedraw);
    assert_eq!(input.text(), "");
    assert_eq!(input.cursor_index(), 0);
}

#[test]
fn clear_text_empties_the_buffer() {
    let mut input = input_with("hello", 3);
    assert_eq!(input.clear_text(), WidgetEventResult::Redraw);
    assert_eq!(input.text(), "");
    assert_eq!(input.len(), 0);
    assert_eq!(input.cursor_index(), 0);
    assert_eq!(input.clear_text(), WidgetEventResult::NoRedraw);
}

#[test]
fn clear_text_keeps_the_rectangles() {
    let mut input = input_with("hello", 3);
    input.set_bounds(Rect { x: 1, y: 2, width: 3, height: 4 });
    input.set_border_bounds(Rect { x: 0, y: 1, width: 5, height: 6 });
    input.clear_text();
    assert_eq!(input.bounds(), Rect { x: 1, y: 2, width: 3, height: 4 });
    assert_eq!(input.border_bounds(), Rect { x: 0, y: 1, width: 5, height: 6 });
}

#[test]
fn update_replaces_the_text() {
    let mut input = TextInput::new();
    input.update("hello".to_string());
    assert_eq!(input.text(), "hello");
    assert_eq!(input.len(), 5);
    assert_eq!(input.cursor_index(), 0);
    input.update("bye".to_string());
    assert_eq!(input.text(), "bye");
    assert_eq!(input.len(), 3);
}

#[test]
fn update_clamps_the_cursor() {
    let mut input = input_with("a longer text", 9);
    input.update("hi".to_string());
    assert_eq!(input.text(), "hi");
    assert_eq!(input.cursor_index(), 1);
}

#[test]
fn update_keeps_a_cursor_that_is_still_on_the_text() {
    let mut input = input_with("hello", 2);
    input.update("another".to_string());
    assert_eq!(input.cursor_index(), 2);
}

#[test]
fn update_moves_a_cursor_at_the_new_end_onto_the_last_character() {
    let mut input = input_with("hello", 2);
    input.update("hi".to_string());
    assert_eq!(input.cursor_index(), 1);
}

#[test]
fn update_with_empty_text_puts_the_cursor_at_zero() {
    let mut input = input_with("hello", 4);
    input.update(String::new());
    assert_eq!(input.text(), "");
    assert_eq!(input.cursor_index(), 0);
    let mut fresh = TextInput::new();
    fresh.update(String::new());
    assert_eq!(fresh.cursor_index(), 0);
}

#[test]
fn positions_count_characters() {
    let mut input = input_with("h\u{e9}llo w\u{f6}rld", 0);
    assert_eq!(input.len(), 11);
    input.set_cursor(11);
    input.update("\u{e9}\u{e9}\u{e9}".to_string());
    assert_eq!(input.len(), 3);
    assert_eq!(input.cursor_index(), 2);
    assert_eq!(input.text(), "\u{e9}\u{e9}\u{e9}");
}

#[test]
fn set_bounds_only_sets_bounds() {
    let mut input = input_with("hello", 3);
    input.set_bounds(Rect { x: 4, y: 5, width: 30, height: 1 });
    assert_eq!(input.bounds(), Rect { x: 4, y: 5, width: 30, height: 1 });
    assert_eq!(input.border_bounds(), Rect::default());
    assert_eq!(input.text(), "hello");
    assert_eq!(input.cursor_index(), 3);
}

#[test]
fn set_border_bounds_only_sets_border_bounds() {
    let mut input = input_with("hello", 3);
    input.set_border_bounds(Rect { x: 3, y: 4, width: 32, height: 3 });
    assert_eq!(input.border_bounds(), Rect { x: 3, y: 4, width: 32, height: 3 });
    assert_eq!(input.bounds(), Rect::default());
    assert_eq!(input.text(), "hello");
    assert_eq!(input.cursor_index(), 3);
}
