//! A free-text input: a string that keys append to and delete from.

use vstd::prelude::*;
use crate::span_builder::{Span, Spans, Style};
use crate::{Event, KeyCode, Spannable};

verus! {

/// A text input.
#[derive(Debug, Clone)]
pub struct Input {
    pub value: String,
    pub error: Option<String>,
    pub focused: bool,
    text_style: Style,
    editing_style: Style,
    error_style: Style,
}

/// What an [`Input`] holds.
pub struct InputView {
    pub value: Seq<char>,
    /// A message to show next to the value.
    pub error: Option<Seq<char>>,
    /// Whether the input is being edited.
    pub focused: bool,
    pub text_style: Style,
    pub editing_style: Style,
    pub error_style: Style,
}

/// What a text input reports after an event.
#[derive(Debug, Clone, Copy, PartialEq, Eq, Structural)]
pub enum InputResponse {
    /// The event asks nothing of the caller.
    Nothing,
    /// The text changed, by a deletion or by a new character.
    Edited { deletion: bool },
    Submit,
    Cancel,
}

impl InputView {
    /// The text after `event`: a character is appended, backspace removes
    /// the last one if there is one, and nothing else changes the text.
    pub open spec fn value_after(self, event: Event) -> Seq<char> {
        match event {
            Event::Key(KeyCode::Char(c)) => self.value.push(c),
            Event::Key(KeyCode::Backspace) => if self.value.len() > 0 {
                self.value.drop_last()
            } else {
                self.value
            },
            _ => self.value,
        }
    }

    /// The fragments the input renders as. While focused: a prompt, the
    /// text in the editing style, and the error message after a blank, if
    /// there is one. Otherwise the text alone, in the error style if there
    /// is an error and in the text style if not.
    pub open spec fn spans(self) -> Seq<(Seq<char>, Style)> {
        if self.focused {
            let editing = seq![("> "@, Style::Plain), (self.value, self.editing_style)];
            match self.error {
                Some(message) => editing.push((" "@ + message, self.error_style)),
                None => editing,
            }
        } else {
            seq![
                (
                    self.value,
                    if self.error is Some {
                        self.error_style
                    } else {
                        self.text_style
                    },
                ),
            ]
        }
    }
}

/// What a text input answers to `event`.
pub open spec fn input_response_to(event: Event) -> InputResponse {
    match event {
        Event::Key(KeyCode::Char(_)) => InputResponse::Edited { deletion: false },
        Event::Key(KeyCode::Backspace) => InputResponse::Edited { deletion: true },
        Event::Key(KeyCode::Enter) => InputResponse::Submit,
        Event::Key(KeyCode::Esc) => InputResponse::Cancel,
        _ => InputResponse::Nothing,
    }
}

impl View for Input {
    type V = InputView;

    closed spec fn view(&self) -> InputView {
        InputView {
            value: self.value@,
            error: match self.error {
                Some(message) => Some(message@),
                None => None,
            },
            focused: self.focused,
            text_style: self.text_style,
            editing_style: self.editing_style,
            error_style: self.error_style,
        }
    }
}

impl Default for Input {
    /// An empty input without an error, not focused, with plain styles.
    fn default() -> (input: Input)
        ensures
            input@ == (InputView {
                value: Seq::empty(),
                error: None,
                focused: false,
                text_style: Style::Plain,
                editing_style: Style::Plain,
                error_style: Style::Plain,
            }),
    {
        Input {
            value: String::new(),
            error: None,
            focused: false,
            text_style: Style::Plain,
            editing_style: Style::Plain,
            error_style: Style::Plain,
        }
    }
}

impl Input {
    /// The same input with `style` for its text while it is not focused.
    pub fn text_style(self, style: Style) -> (input: Self)
        ensures
            input@ == (InputView { text_style: style, ..self@ }),
    {
        let mut input = self;
        input.text_style = style;
        input
    }

    /// The same input with `style` for its text while it is focused.
    pub fn editing_style(self, style: Style) -> (input: Self)
        ensures
            input@ == (InputView { editing_style: style, ..self@ }),
    {
        let mut input = self;
        input.editing_style = style;
        input
    }

    /// The same input with `style` for its error message.
    pub fn error_style(self, style: Style) -> (input: Self)
        ensures
            input@ == (InputView { error_style: style, ..self@ }),
    {
        let mut input = self;
        input.error_style = style;
        input
    }

    /// Applies one event and tells what it meant.
    pub fn handle_event(&mut self, event: Event) -> (response: InputResponse)
        ensures
            final(self)@ == (InputView { value: old(self)@.value_after(event), ..old(self)@ }),
            response == input_response_to(event),
    {
        if let Event::Key(code) = event {
            match code {
                KeyCode::Char(c) => {
                    self.value.push(c);
                    InputResponse::Edited { deletion: false }
                },
                KeyCode::Backspace => {
                    self.value.pop();
                    InputResponse::Edited { deletion: true }
                },
                KeyCode::Enter => InputResponse::Submit,
                KeyCode::Esc => InputResponse::Cancel,
                _ => InputResponse::Nothing,
            }
        } else {
            InputResponse::Nothing
        }
    }
}

impl Spannable for Input {
    open spec fn spans(&self) -> Seq<(Seq<char>, Style)> {
        self@.spans()
    }

    fn get_spans(&self) -> (spans: Spans) {
        let mut spans = Spans::new();
        if self.focused {
            spans.push(Span::raw(String::from_str("> ")));
            spans.push(Span::styled(self.value.clone(), self.editing_style));
            if let Some(e) = &self.error {
                let mut message = String::from_str(" ");
                message.append(e.as_str());
                spans.push(Span::styled(message, self.error_style));
            }
        } else {
            let style = if self.error.is_some() {
                self.error_style
            } else {
                self.text_style
            };
            spans.push(Span::styled(self.value.clone(), style));
        }
        assert(spans@ =~= self@.spans());
        spans
    }
}

} // verus!
