//! Numeric inputs that are edited one keystroke at a time.

use vstd::prelude::*;
use crate::span_builder::{Span, Spans, Style};
use crate::{Event, KeyCode};

pub mod bounded;
pub mod decimal;
pub mod float;
pub mod signed;
pub mod signed_widths;
pub mod text;
pub mod unsigned;
pub mod unsigned_widths;

pub use bounded::{InputInt, InputSignedInt, InputUnsignedInt};
pub use float::{
    FloatInput, FloatNum, FloatNumView, FloatReading, FloatSource, FloatValue, FloatValueView,
    NewFloatError,
};
pub use signed::{SignedIntInput, SignedState};
pub use unsigned::{UnsignedIntInput, UnsignedState};

verus! {

/// What a numeric input reports after an event.
#[derive(Debug, Clone, Copy, PartialEq, Eq, Structural)]
pub enum NumInputResponse {
    /// The event asks nothing of the caller.
    Nothing,
    Submit,
    Cancel,
}

/// What a numeric input answers to `event`: enter submits, escape cancels,
/// and nothing else concerns the caller.
pub open spec fn response_to(event: Event) -> NumInputResponse {
    match event {
        Event::Key(KeyCode::Enter) => NumInputResponse::Submit,
        Event::Key(KeyCode::Esc) => NumInputResponse::Cancel,
        _ => NumInputResponse::Nothing,
    }
}

/// The sign indicator in front of a number.
pub open spec fn sign_text(negative: bool) -> Seq<char> {
    if negative {
        "- "@
    } else {
        "+ "@
    }
}

/// The annotation behind an integer that sits at a bound of its type, where
/// further steps in that direction change nothing. The upper bound is
/// looked at first.
pub open spec fn bound_note(value: int, min: int, max: int) -> Seq<(Seq<char>, Style)> {
    if value == max {
        seq![(" (max value)"@, Style::Muted)]
    } else if value == min {
        seq![(" (min value)"@, Style::Muted)]
    } else {
        Seq::empty()
    }
}

/// The sign indicator in front of a number.
pub fn sign_span(negative: bool) -> (span: Span)
    ensures
        span@ == (sign_text(negative), Style::Accent),
{
    Span::styled(
        String::from_str(
            if negative {
                "- "
            } else {
                "+ "
            },
        ),
        Style::Accent,
    )
}

/// Appends the note for an integer that sits at a bound of its type, if it
/// does.
pub fn push_bound_note<T: InputInt>(spans: &mut Spans, current: T)
    ensures
        final(spans)@ == old(spans)@ + bound_note(current.as_int(), T::min_int(), T::max_int()),
{
    if current.equals(&T::max_value()) {
        spans.push(Span::styled(String::from_str(" (max value)"), Style::Muted));
    } else if current.equals(&T::min_value()) {
        spans.push(Span::styled(String::from_str(" (min value)"), Style::Muted));
    }
    assert(spans@ =~= old(spans)@ + bound_note(current.as_int(), T::min_int(), T::max_int()));
}

} // verus!
