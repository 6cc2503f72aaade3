//! Decoded input events, the editing actions they stand for, and the redraw
//! signal that every handler returns.

use vstd::prelude::*;

verus! {

/// What a handler reports back: whether the widget looks different now.
#[derive(Clone, Copy, Debug, PartialEq, Eq, Structural)]
pub enum WidgetEventResult {
    /// Nothing visible changed.
    NoRedraw,
    /// The widget has to be painted again.
    Redraw,
}

impl WidgetEventResult {
    /// `Redraw` if `changed`, else `NoRedraw`.
    pub open spec fn redraw_if(changed: bool) -> WidgetEventResult {
        if changed {
            WidgetEventResult::Redraw
        } else {
            WidgetEventResult::NoRedraw
        }
    }
}

/// The keys the widget tells apart. Every other key is `Other`.
#[derive(Clone, Copy, Debug, PartialEq, Eq, Structural)]
pub enum KeyCode {
    Left,
    Right,
    Backspace,
    Char(char),
    Other,
}

/// The modifier keys held down while a key was pressed.
#[derive(Clone, Copy, Debug, PartialEq, Eq, Structural)]
pub struct KeyModifiers {
    pub shift: bool,
    pub control: bool,
    pub alt: bool,
    /// Any further modifier, such as super or meta.
    pub other: bool,
}

/// The four classes of modifier state that the key table is indexed by.
#[derive(Clone, Copy, Debug, PartialEq, Eq, Structural)]
pub enum ModifierSet {
    /// No modifier is held.
    Empty,
    /// Control and nothing else.
    Control,
    /// Alt and nothing else.
    Alt,
    /// Any other modifier, or more than one at once.
    Other,
}

impl KeyModifiers {
    /// No modifier held.
    pub open spec fn none() -> KeyModifiers {
        KeyModifiers { shift: false, control: false, alt: false, other: false }
    }

    /// Control held, and nothing else.
    pub open spec fn only_control() -> KeyModifiers {
        KeyModifiers { control: true, ..KeyModifiers::none() }
    }

    /// Alt held, and nothing else.
    pub open spec fn only_alt() -> KeyModifiers {
        KeyModifiers { alt: true, ..KeyModifiers::none() }
    }

    /// The class of this modifier state.
    pub open spec fn class(self) -> ModifierSet {
        if self.shift || self.other {
            ModifierSet::Other
        } else if self.control && self.alt {
            ModifierSet::Other
        } else if self.control {
            ModifierSet::Control
        } else if self.alt {
            ModifierSet::Alt
        } else {
            ModifierSet::Empty
        }
    }

    /// Computes [`KeyModifiers::class`].
    pub fn classify(&self) -> (set: ModifierSet)
        ensures
            set == self.class(),
            set == ModifierSet::Empty <==> *self == KeyModifiers::none(),
            set == ModifierSet::Control <==> *self == KeyModifiers::only_control(),
            set == ModifierSet::Alt <==> *self == KeyModifiers::only_alt(),
    {
        if self.shift || self.other || (self.control && self.alt) {
            ModifierSet::Other
        } else if self.control {
            ModifierSet::Control
        } else if self.alt {
            ModifierSet::Alt
        } else {
            ModifierSet::Empty
        }
    }
}

/// A key press: the key and the modifiers held with it.
#[derive(Clone, Copy, Debug, PartialEq, Eq, Structural)]
pub struct KeyEvent {
    pub code: KeyCode,
    pub modifiers: KeyModifiers,
}

/// A pointer press at an absolute terminal cell.
#[derive(Clone, Copy, Debug, PartialEq, Eq, Structural)]
pub struct MouseEvent {
    pub column: u16,
    /// Carried for completeness; a single-line widget does not read it.
    pub row: u16,
}

/// The editing actions a key press can stand for.
#[derive(Clone, Copy, Debug, PartialEq, Eq, Structural)]
pub enum Action {
    /// Do nothing.
    Ignore,
    /// Move the cursor one position left.
    MoveBack,
    /// Move the cursor one position right.
    MoveForward,
    /// Move the cursor to the start of the line.
    LineStart,
    /// Move the cursor behind the last character.
    LineEnd,
    /// Move the cursor to the start of the current or previous word.
    MoveWordBack,
    /// Move the cursor to the start of the next word.
    MoveWordForward,
    /// Empty the buffer.
    ClearText,
    /// Delete from the previous word start up to the cursor.
    ClearPreviousWord,
    /// Delete the grapheme cluster before the cursor.
    ClearPreviousGrapheme,
}

impl KeyEvent {
    /// The key table: the action bound to each pair of modifier class and key.
    /// Every pair that is not listed is bound to `Ignore`.
    pub open spec fn action(self) -> Action {
        match (self.modifiers.class(), self.code) {
            (ModifierSet::Empty, KeyCode::Left) => Action::MoveBack,
            (ModifierSet::Empty, KeyCode::Right) => Action::MoveForward,
            (ModifierSet::Empty, KeyCode::Backspace) => Action::ClearPreviousGrapheme,
            (ModifierSet::Control, KeyCode::Char('a')) => Action::LineStart,
            (ModifierSet::Control, KeyCode::Char('e')) => Action::LineEnd,
            (ModifierSet::Control, KeyCode::Char('u')) => Action::ClearText,
            (ModifierSet::Control, KeyCode::Char('w')) => Action::ClearPreviousWord,
            (ModifierSet::Control, KeyCode::Char('h')) => Action::ClearPreviousGrapheme,
            (ModifierSet::Alt, KeyCode::Char('b')) => Action::MoveWordBack,
            (ModifierSet::Alt, KeyCode::Char('f')) => Action::MoveWordForward,
            _ => Action::Ignore,
        }
    }

    /// Looks the event up in the key table.
    pub fn to_action(&self) -> (action: Action)
        ensures
            action == self.action(),
    {
        match (self.modifiers.classify(), self.code) {
            (ModifierSet::Empty, KeyCode::Left) => Action::MoveBack,
            (ModifierSet::Empty, KeyCode::Right) => Action::MoveForward,
            (ModifierSet::Empty, KeyCode::Backspace) => Action::ClearPreviousGrapheme,
            (ModifierSet::Control, KeyCode::Char('a')) => Action::LineStart,
            (ModifierSet::Control, KeyCode::Char('e')) => Action::LineEnd,
            (ModifierSet::Control, KeyCode::Char('u')) => Action::ClearText,
            (ModifierSet::Control, KeyCode::Char('w')) => Action::ClearPreviousWord,
            (ModifierSet::Control, KeyCode::Char('h')) => Action::ClearPreviousGrapheme,
            (ModifierSet::Alt, KeyCode::Char('b')) => Action::MoveWordBack,
            (ModifierSet::Alt, KeyCode::Char('f')) => Action::MoveWordForward,
            _ => Action::Ignore,
        }
    }
}

} // verus!
