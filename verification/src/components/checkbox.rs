//! A checkbox: a boolean that keys set, clear and flip.

use vstd::prelude::*;
use crate::span_builder::{Span, Spans, Style};
use crate::{Event, KeyCode, Spannable};

verus! {

/// The character a checked box is drawn with.
pub const TRUE_CHAR: char = '\u{2611}';

/// The character an unchecked box is drawn with.
pub const FALSE_CHAR: char = '\u{2610}';

/// What a checkbox reports after an event.
#[derive(Debug, Clone, Copy, PartialEq, Eq, Structural)]
pub enum CheckboxResponse {
    /// The event set, cleared or flipped the box.
    Edited,
    /// The event asks nothing of the caller.
    Nothing,
    Submit,
    Exit,
}

/// A checkbox.
#[derive(Debug)]
pub struct Checkbox {
    pub value: bool,
}

/// The value of a checkbox after `event`, starting from `value`: `t` and `y`
/// check the box, `f` and `n` clear it, and the up and down arrows flip it.
pub open spec fn checkbox_value_after(value: bool, event: Event) -> bool {
    match event {
        Event::Key(KeyCode::Char(c)) => {
            if c == 't' || c == 'y' {
                true
            } else if c == 'f' || c == 'n' {
                false
            } else {
                value
            }
        },
        Event::Key(KeyCode::Down) | Event::Key(KeyCode::Up) => !value,
        _ => value,
    }
}

/// What a checkbox answers to `event`: the keys that edit it say so,
/// backspace leaves, enter submits, and nothing else concerns the caller.
pub open spec fn checkbox_response_to(event: Event) -> CheckboxResponse {
    match event {
        Event::Key(KeyCode::Char(c)) => {
            if c == 't' || c == 'y' || c == 'f' || c == 'n' {
                CheckboxResponse::Edited
            } else {
                CheckboxResponse::Nothing
            }
        },
        Event::Key(KeyCode::Down) | Event::Key(KeyCode::Up) => CheckboxResponse::Edited,
        Event::Key(KeyCode::Backspace) => CheckboxResponse::Exit,
        Event::Key(KeyCode::Enter) => CheckboxResponse::Submit,
        _ => CheckboxResponse::Nothing,
    }
}

/// The fragments of a box drawn after a prompt, with `unchecked` as the
/// style of an unchecked box.
pub open spec fn checkbox_spans(value: bool, unchecked: Style) -> Seq<(Seq<char>, Style)> {
    seq![
        ("> "@, Style::Plain),
        if value {
            (seq![TRUE_CHAR], Style::Accent)
        } else {
            (seq![FALSE_CHAR], unchecked)
        },
    ]
}

/// A string that holds the character `c` alone.
fn char_string(c: char) -> (string: String)
    ensures
        string@ == seq![c],
{
    let mut string = String::new();
    string.push(c);
    assert(string@ =~= seq![c]);
    string
}

impl Default for Checkbox {
    /// An unchecked box.
    fn default() -> (checkbox: Checkbox)
        ensures
            !checkbox.value,
    {
        Checkbox { value: false }
    }
}

impl Checkbox {
    pub fn new(value: bool) -> (checkbox: Self)
        ensures
            checkbox.value == value,
    {
        Self { value }
    }

    /// Flips the box.
    pub fn invert(&mut self)
        ensures
            final(self).value == !old(self).value,
    {
        self.value = !self.value;
    }

    /// Applies one event and tells what it meant.
    pub fn handle_event(&mut self, event: Event) -> (response: CheckboxResponse)
        ensures
            final(self).value == checkbox_value_after(old(self).value, event),
            response == checkbox_response_to(event),
    {
        if let Event::Key(code) = event {
            match code {
                KeyCode::Char(c) => {
                    if c == 't' || c == 'y' {
                        self.value = true;
                        CheckboxResponse::Edited
                    } else if c == 'f' || c == 'n' {
                        self.value = false;
                        CheckboxResponse::Edited
                    } else {
                        CheckboxResponse::Nothing
                    }
                },
                KeyCode::Down | KeyCode::Up => {
                    self.value = !self.value;
                    CheckboxResponse::Edited
                },
                KeyCode::Backspace => CheckboxResponse::Exit,
                KeyCode::Enter => CheckboxResponse::Submit,
                _ => CheckboxResponse::Nothing,
            }
        } else {
            CheckboxResponse::Nothing
        }
    }

    /// The fragments with the given style for an unchecked box.
    fn spans_with(&self, unchecked: Style) -> (spans: Spans)
        ensures
            spans@ == checkbox_spans(self.value, unchecked),
    {
        let mut spans = Spans::new();
        spans.push(Span::raw(String::from_str("> ")));
        if self.value {
            spans.push(Span::styled(char_string(TRUE_CHAR), Style::Accent));
        } else {
            spans.push(Span::styled(char_string(FALSE_CHAR), unchecked));
        }
        assert(spans@ =~= checkbox_spans(self.value, unchecked));
        spans
    }

    /// The fragments the box is drawn with when it is drawn by itself: an
    /// unchecked box is then styled as an error.
    pub fn draw_spans(&self) -> (spans: Spans)
        ensures
            spans@ == checkbox_spans(self.value, Style::Error),
    {
        self.spans_with(Style::Error)
    }
}

impl Spannable for Checkbox {
    open spec fn spans(&self) -> Seq<(Seq<char>, Style)> {
        checkbox_spans(self.value, Style::Warning)
    }

    fn get_spans(&self) -> (spans: Spans) {
        self.spans_with(Style::Warning)
    }
}

} // verus!
