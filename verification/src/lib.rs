//! Terminal UI components whose editing logic is verified: a checkbox, a
//! free-text input, and numeric inputs for signed integers, unsigned integers
//! and floating-point values.
//!
//! Every component turns key events into state changes and renders itself as
//! a line of styled text fragments. Both halves are plain data here: an
//! [`Event`] carries the key that was pressed and [`span_builder::Spans`]
//! carries text with symbolic styles, so the embedding program decides how
//! keys are read and how styles are drawn.

use vstd::prelude::*;

pub mod components;
pub mod run_loop;
pub mod span_builder;
pub mod strings;

verus! {

/// A key on the keyboard, as far as the components tell keys apart.
#[derive(Debug, Clone, Copy, PartialEq, Eq, Structural)]
pub enum KeyCode {
    /// A character key.
    Char(char),
    Backspace,
    Enter,
    Esc,
    Up,
    Down,
    Tab,
    /// Any key without a meaning for the components.
    Other,
}

/// An input event delivered to a component.
#[derive(Debug, Clone, Copy, PartialEq, Eq, Structural)]
pub enum Event {
    /// A key was pressed.
    Key(KeyCode),
    /// The mouse did something; no component reacts to it.
    Mouse,
}

/// What a top-level component asks of the loop that drives it.
#[derive(Debug, Clone, Copy, PartialEq, Eq, Structural)]
pub enum AppResponse {
    /// Leave the loop.
    Exit,
    /// Keep going.
    Nothing,
}

/// A component that can be rendered as a line of styled text fragments.
pub trait Spannable {
    /// The fragments this component renders as, each a text and its style.
    spec fn spans(&self) -> Seq<(Seq<char>, span_builder::Style)>;

    fn get_spans(&self) -> (spans: span_builder::Spans)
        ensures
            spans@ == self.spans(),
    ;
}

} // verus!
