//! The unsigned integer input.
//!
//! Like the signed input it builds its value by scaling with saturating
//! arithmetic, and it has no sign to keep.

use vstd::prelude::*;
use super::bounded::{clamp, clamp_int, one, ten, truncating_div, InputUnsignedInt};
use super::decimal::{
    drop_digits, int_text, lemma_drop_digits_is_division, lemma_text_of_scaled, pow10,
};
use super::text::{digit_value, is_digit, to_digit};
use super::{bound_note, push_bound_note, response_to, NumInputResponse};
use crate::span_builder::{Span, Spans, Style};
use crate::{Event, KeyCode, Spannable};

verus! {

/// What an unsigned integer input holds, with the bounds of its integer type.
pub struct UnsignedState {
    pub value: int,
    pub min: int,
    pub max: int,
}

impl UnsignedState {
    /// The value lies within the bounds, and the bounds are those of an
    /// unsigned type.
    pub open spec fn wf(self) -> bool {
        &&& self.min <= self.value <= self.max
        &&& self.min == 0
        &&& 127 <= self.max
    }

    /// `v` held within the bounds.
    pub open spec fn saturate(self, v: int) -> int {
        clamp_int(v, self.min, self.max)
    }

    /// The state after storing `v`, held within the bounds.
    pub open spec fn set(self, v: int) -> UnsignedState {
        UnsignedState { value: self.saturate(v), min: self.min, max: self.max }
    }

    /// The state after adding `v` with saturation.
    pub open spec fn add(self, v: int) -> UnsignedState {
        self.set(self.saturate(self.value + v))
    }

    /// The state after subtracting `v` with saturation.
    pub open spec fn sub(self, v: int) -> UnsignedState {
        self.set(self.saturate(self.value - v))
    }

    /// The state after multiplying by `v` with saturation.
    pub open spec fn multiply(self, v: int) -> UnsignedState {
        self.set(self.saturate(self.value * v))
    }

    /// The state after the last decimal digit is dropped.
    pub open spec fn remove_digit(self) -> UnsignedState {
        self.set(truncating_div(self.value, 10))
    }

    /// The state after the character `digit` is typed: a digit scales the
    /// value by ten and is then added; any other character changes nothing.
    pub open spec fn append_digit(self, digit: char) -> UnsignedState {
        if is_digit(digit) {
            self.multiply(10).add(digit_value(digit))
        } else {
            self
        }
    }

    /// The state after `event`: digits are typed, backspace drops a digit,
    /// the up and down arrows step by one, and nothing else has an effect.
    pub open spec fn after_event(self, event: Event) -> UnsignedState {
        match event {
            Event::Key(KeyCode::Char(c)) => self.append_digit(c),
            Event::Key(KeyCode::Backspace) => self.remove_digit(),
            Event::Key(KeyCode::Up) => self.add(1),
            Event::Key(KeyCode::Down) => self.sub(1),
            _ => self,
        }
    }

    /// The fragments the state renders as: a prompt, the value, and a note
    /// if the value sits at a bound.
    pub open spec fn spans(self) -> Seq<(Seq<char>, Style)> {
        seq![("> "@, Style::Accent), (int_text(self.value), Style::Plain)] + bound_note(
            self.value,
            self.min,
            self.max,
        )
    }
}

impl UnsignedState {
    /// The state after the characters of `digits` are typed one after the
    /// other.
    pub open spec fn append_digits(self, digits: Seq<char>) -> UnsignedState
        decreases digits.len(),
    {
        if digits.len() == 0 {
            self
        } else {
            self.append_digits(digits.drop_last()).append_digit(digits.last())
        }
    }

    /// The state after the last decimal digit is dropped `n` times.
    pub open spec fn remove_digits(self, n: nat) -> UnsignedState
        decreases n,
    {
        if n == 0 {
            self
        } else {
            self.remove_digits((n - 1) as nat).remove_digit()
        }
    }
}

/// Typing a character keeps the state well-formed.
pub proof fn lemma_append_digit_wf(state: UnsignedState, digit: char)
    requires
        state.wf(),
    ensures
        state.append_digit(digit).wf(),
{
}

/// Whatever is typed, and however much of it, the value never leaves the
/// bounds of the type: it saturates there.
pub proof fn lemma_append_digits_in_bounds(state: UnsignedState, digits: Seq<char>)
    requires
        state.wf(),
    ensures
        state.append_digits(digits).wf(),
        state.min <= state.append_digits(digits).value <= state.max,
        state.append_digits(digits).min == state.min,
        state.append_digits(digits).max == state.max,
    decreases digits.len(),
{
    if digits.len() > 0 {
        lemma_append_digits_in_bounds(state, digits.drop_last());
        lemma_append_digit_wf(state.append_digits(digits.drop_last()), digits.last());
    }
}

/// What is typed is what is shown: as long as the result fits the type, a
/// typed digit appears behind the digits of the value, or in place of the
/// `0` that stands for an empty value.
pub proof fn lemma_append_digit_extends_text(state: UnsignedState, digit: char)
    requires
        state.wf(),
        is_digit(digit),
        state.value * 10 + digit_value(digit) <= state.max,
    ensures
        state.value != 0 ==> int_text(state.append_digit(digit).value) == int_text(
            state.value,
        ).push(digit),
        state.value == 0 ==> int_text(state.append_digit(digit).value) == seq![digit],
{
    lemma_text_of_scaled(state.value as nat, digit_value(digit) as nat);
}

/// Dropping the last digit `n` times divides the value by the `n`-th power
/// of ten.
pub proof fn lemma_remove_digits(state: UnsignedState, n: nat)
    requires
        state.wf(),
    ensures
        state.remove_digits(n).wf(),
        state.remove_digits(n).value == drop_digits(state.value, n),
        state.remove_digits(n).value == state.value / (pow10(n) as int),
    decreases n,
{
    lemma_drop_digits_is_division(state.value, n);
    if n > 0 {
        lemma_remove_digits(state, (n - 1) as nat);
        lemma_drop_digits_is_division(state.value, (n - 1) as nat);
    }
}

/// An unsigned integer input.
#[derive(Debug)]
pub struct UnsignedIntInput<T: InputUnsignedInt> {
    current: T,
}

impl<T: InputUnsignedInt> View for UnsignedIntInput<T> {
    type V = UnsignedState;

    closed spec fn view(&self) -> UnsignedState {
        UnsignedState { value: self.current.as_int(), min: T::min_int(), max: T::max_int() }
    }
}

impl<T: InputUnsignedInt> UnsignedIntInput<T> {
    /// The input holds a well-formed state within the bounds of `T`.
    pub open spec fn wf(&self) -> bool {
        &&& self@.wf()
        &&& self@.min == T::min_int()
        &&& self@.max == T::max_int()
    }

    /// An input that starts at `initial_value`.
    pub fn new(initial_value: T) -> (input: Self)
        ensures
            input.wf(),
            input@.value == initial_value.as_int(),
    {
        proof {
            initial_value.lemma_bounded();
            T::lemma_range();
            T::lemma_unsigned_range();
        }
        Self { current: initial_value }
    }

    /// Stores `value`.
    pub fn set(&mut self, value: T)
        ensures
            final(self)@ == old(self)@.set(value.as_int()),
            final(self).wf(),
    {
        proof {
            value.lemma_bounded();
            T::lemma_range();
            T::lemma_unsigned_range();
        }
        self.current = clamp(value, T::min_value(), T::max_value());
    }

    /// Adds `value`, stopping at the greatest value of `T`.
    pub fn add(&mut self, value: T) -> (this: &mut Self)
        ensures
            this@ == old(self)@.add(value.as_int()),
            this.wf(),
            *final(self) == *final(this),
    {
        self.set(self.current.saturating_add(&value));
        self
    }

    /// Subtracts `value`, stopping at zero.
    pub fn sub(&mut self, value: T) -> (this: &mut Self)
        ensures
            this@ == old(self)@.sub(value.as_int()),
            this.wf(),
            *final(self) == *final(this),
    {
        self.set(self.current.saturating_sub(&value));
        self
    }

    /// Multiplies by `value`, stopping at the greatest value of `T`.
    pub fn multiply(&mut self, value: T) -> (this: &mut Self)
        ensures
            this@ == old(self)@.multiply(value.as_int()),
            this.wf(),
            *final(self) == *final(this),
    {
        self.set(self.current.saturating_mul(&value));
        self
    }

    /// Drops the last decimal digit.
    pub fn remove_digit(&mut self)
        ensures
            final(self)@ == old(self)@.remove_digit(),
            final(self).wf(),
    {
        // integer division with 10
        self.set(self.current.quotient(&ten()))
    }

    /// The value the input holds.
    pub fn value(&self) -> (current: T)
        ensures
            current.as_int() == self@.value,
    {
        self.current
    }

    /// Types one character. Tells whether it was a digit; only then does
    /// the input change.
    pub fn append_digit(&mut self, digit: char) -> (consumed: bool)
        ensures
            consumed == is_digit(digit),
            final(self)@ == old(self)@.append_digit(digit),
            old(self).wf() ==> final(self).wf(),
    {
        if let Some(dig) = to_digit(digit) {
            proof {
                T::lemma_range();
            }
            // instead of converting to string, just multiply by 10 and add
            // the digit. This way, we also cap out at the max of the number
            self.multiply(ten()).add(T::from_u32(dig).unwrap());
            true
        } else {
            false
        }
    }

    /// Applies one event and tells whether the user submitted or cancelled.
    pub fn handle_event(&mut self, event: Event) -> (response: NumInputResponse)
        ensures
            final(self)@ == old(self)@.after_event(event),
            response == response_to(event),
            old(self).wf() ==> final(self).wf(),
    {
        if let Event::Key(code) = event {
            match code {
                KeyCode::Char(c) => {
                    self.append_digit(c);
                },
                KeyCode::Backspace => {
                    self.remove_digit();
                },
                KeyCode::Up => {
                    self.add(one());
                },
                KeyCode::Down => {
                    self.sub(one());
                },
                KeyCode::Enter => {
                    return NumInputResponse::Submit;
                },
                KeyCode::Esc => {
                    return NumInputResponse::Cancel;
                },
                _ => {},
            }
        }
        NumInputResponse::Nothing
    }
}

impl<T: InputUnsignedInt> Spannable for UnsignedIntInput<T> {
    open spec fn spans(&self) -> Seq<(Seq<char>, Style)> {
        self@.spans()
    }

    fn get_spans(&self) -> (spans: Spans) {
        let mut spans = Spans::new();
        spans.push(Span::styled(String::from_str("> "), Style::Accent));
        spans.push(Span::raw(self.current.to_text()));
        assert(spans@ =~= seq![
            ("> "@, Style::Accent),
            (int_text(self.current.as_int()), Style::Plain),
        ]);
        push_bound_note(&mut spans, self.current);
        spans
    }
}

} // verus!
