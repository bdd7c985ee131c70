//! The signed integer input.
//!
//! The value is built up by scaling: a typed digit multiplies the value by
//! ten and adds or subtracts the digit, all with saturating arithmetic, so no
//! stream of digits can leave the range of the type. The sign is kept beside
//! the value, so that a zero can carry the minus the user has just typed.

use vstd::prelude::*;
use super::bounded::{clamp, clamp_int, one, ten, truncating_div, zero, InputSignedInt};
use super::decimal::{
    drop_digits, lemma_drop_digits_is_division, lemma_text_of_scaled, magnitude, nat_text, pow10,
};
use super::text::{digit_value, is_digit, to_digit};
use super::{bound_note, push_bound_note, response_to, sign_span, sign_text, NumInputResponse};
use crate::span_builder::{Span, Spans, Style};
use crate::{Event, KeyCode, Spannable};

verus! {

/// What a signed integer input holds, with the bounds of its integer type.
pub struct SignedState {
    pub value: int,
    /// The sign that is shown. It is the sign of `value` unless that is zero.
    pub negative: bool,
    pub min: int,
    pub max: int,
}

impl SignedState {
    /// The value lies within the bounds, the bounds are those of a signed
    /// type, and the sign is that of the value wherever the value has one.
    pub open spec fn wf(self) -> bool {
        &&& self.min <= self.value <= self.max
        &&& self.min + self.max == -1
        &&& 127 <= self.max
        &&& self.value != 0 ==> self.negative == (self.value < 0)
    }

    /// `v` held within the bounds.
    pub open spec fn saturate(self, v: int) -> int {
        clamp_int(v, self.min, self.max)
    }

    /// The state after storing `v`: the value is `v` held within the bounds,
    /// and the sign follows `v` unless `v` is zero, which keeps the sign.
    pub open spec fn set(self, v: int) -> SignedState {
        SignedState {
            value: self.saturate(v),
            negative: if v != 0 {
                v < 0
            } else {
                self.negative
            },
            min: self.min,
            max: self.max,
        }
    }

    /// The state after adding `v` with saturation.
    pub open spec fn add(self, v: int) -> SignedState {
        self.set(self.saturate(self.value + v))
    }

    /// The state after subtracting `v` with saturation.
    pub open spec fn sub(self, v: int) -> SignedState {
        self.set(self.saturate(self.value - v))
    }

    /// The state after multiplying by `v` with saturation.
    pub open spec fn multiply(self, v: int) -> SignedState {
        self.set(self.saturate(self.value * v))
    }

    /// The state after a change of sign: a zero flips the sign that is
    /// shown, any other value is negated with saturation.
    pub open spec fn invert(self) -> SignedState {
        if self.value == 0 {
            SignedState {
                value: self.value,
                negative: !self.negative,
                min: self.min,
                max: self.max,
            }
        } else {
            self.set(self.saturate(0 - self.value))
        }
    }

    /// The state after the last decimal digit is dropped.
    pub open spec fn remove_digit(self) -> SignedState {
        self.set(truncating_div(self.value, 10))
    }

    /// The state after the character `digit` is typed: a digit scales the
    /// value by ten and then moves it away from zero by the digit, toward
    /// the side the sign names; any other character changes nothing.
    pub open spec fn append_digit(self, digit: char) -> SignedState {
        if is_digit(digit) {
            if self.negative {
                self.multiply(10).sub(digit_value(digit))
            } else {
                self.multiply(10).add(digit_value(digit))
            }
        } else {
            self
        }
    }

    /// The state after `event`: digits are typed, `-` changes the sign,
    /// backspace drops a digit, the up and down arrows step by one, and
    /// nothing else has an effect.
    pub open spec fn after_event(self, event: Event) -> SignedState {
        match event {
            Event::Key(KeyCode::Char(c)) => {
                if is_digit(c) {
                    self.append_digit(c)
                } else if c == '-' {
                    self.invert()
                } else {
                    self
                }
            },
            Event::Key(KeyCode::Backspace) => self.remove_digit(),
            Event::Key(KeyCode::Up) => self.add(1),
            Event::Key(KeyCode::Down) => self.sub(1),
            _ => self,
        }
    }

    /// The fragments the state renders as: the sign indicator, the digits
    /// of the value without its sign, and a note if the value sits at a
    /// bound.
    pub open spec fn spans(self) -> Seq<(Seq<char>, Style)> {
        seq![
            (sign_text(self.negative), Style::Accent),
            (nat_text(magnitude(self.value)), Style::Plain),
        ] + bound_note(self.value, self.min, self.max)
    }
}

impl SignedState {
    /// The state after the characters of `digits` are typed one after the
    /// other.
    pub open spec fn append_digits(self, digits: Seq<char>) -> SignedState
        decreases digits.len(),
    {
        if digits.len() == 0 {
            self
        } else {
            self.append_digits(digits.drop_last()).append_digit(digits.last())
        }
    }

    /// The state after the last decimal digit is dropped `n` times.
    pub open spec fn remove_digits(self, n: nat) -> SignedState
        decreases n,
    {
        if n == 0 {
            self
        } else {
            self.remove_digits((n - 1) as nat).remove_digit()
        }
    }
}

/// Storing a value keeps the state well-formed, whatever the value.
pub proof fn lemma_set_wf(state: SignedState, v: int)
    requires
        state.wf(),
    ensures
        state.set(v).wf(),
{
}

/// Typing a character keeps the state well-formed.
pub proof fn lemma_append_digit_wf(state: SignedState, digit: char)
    requires
        state.wf(),
    ensures
        state.append_digit(digit).wf(),
{
}

/// Whatever is typed, and however much of it, the value never leaves the
/// bounds of the type: it saturates there.
pub proof fn lemma_append_digits_in_bounds(state: SignedState, digits: Seq<char>)
    requires
        state.wf(),
    ensures
        state.append_digits(digits).wf(),
        state.min <= state.append_digits(digits).value <= state.max,
        state.append_digits(digits).min == state.min,
        state.append_digits(digits).max == state.max,
    decreases digits.len(),
{
    if digits.len() > 0 {
        lemma_append_digits_in_bounds(state, digits.drop_last());
        lemma_append_digit_wf(state.append_digits(digits.drop_last()), digits.last());
    }
}

/// What is typed is what is shown: as long as the result fits the type, a
/// typed digit appears behind the digits of the value, or in place of the
/// `0` that stands for an empty value.
pub proof fn lemma_append_digit_extends_text(state: SignedState, digit: char)
    requires
        state.wf(),
        is_digit(digit),
        state.min <= state.value * 10 - digit_value(digit),
        state.value * 10 + digit_value(digit) <= state.max,
    ensures
        state.value != 0 ==> nat_text(magnitude(state.append_digit(digit).value)) == nat_text(
            magnitude(state.value),
        ).push(digit),
        state.value == 0 ==> nat_text(magnitude(state.append_digit(digit).value)) == seq![digit],
        state.append_digit(digit).negative == state.negative,
{
    lemma_text_of_scaled(magnitude(state.value), digit_value(digit) as nat);
}

/// Changing the sign twice gives back the value and the sign that were
/// there, for every value but the least of the type, whose negation the
/// type does not hold.
pub proof fn lemma_invert_twice(state: SignedState)
    requires
        state.wf(),
        state.value != state.min,
    ensures
        state.invert().invert() == state,
{
}

/// Storing zero keeps the sign that was shown, and storing any other value
/// shows the sign of that value.
pub proof fn lemma_set_sign(state: SignedState, v: int)
    ensures
        v == 0 ==> state.set(v).negative == state.negative,
        v != 0 ==> state.set(v).negative == (v < 0),
{
}

/// Dropping the last digit `n` times divides the value by the `n`-th power
/// of ten, rounding toward zero.
pub proof fn lemma_remove_digits(state: SignedState, n: nat)
    requires
        state.wf(),
    ensures
        state.remove_digits(n).wf(),
        state.remove_digits(n).value == drop_digits(state.value, n),
        state.remove_digits(n).value == truncating_div(state.value, pow10(n) as int),
    decreases n,
{
    lemma_drop_digits_is_division(state.value, n);
    if n > 0 {
        lemma_remove_digits(state, (n - 1) as nat);
        lemma_drop_digits_is_division(state.value, (n - 1) as nat);
    }
}

/// A signed integer input.
#[derive(Debug)]
pub struct SignedIntInput<T: InputSignedInt> {
    current: T,
    negative: bool,
}

impl<T: InputSignedInt> View for SignedIntInput<T> {
    type V = SignedState;

    closed spec fn view(&self) -> SignedState {
        SignedState {
            value: self.current.as_int(),
            negative: self.negative,
            min: T::min_int(),
            max: T::max_int(),
        }
    }
}

impl<T: InputSignedInt> SignedIntInput<T> {
    /// The input holds a well-formed state within the bounds of `T`.
    pub open spec fn wf(&self) -> bool {
        &&& self@.wf()
        &&& self@.min == T::min_int()
        &&& self@.max == T::max_int()
    }

    /// An input that starts at `initial_value`, with its sign.
    pub fn new(initial_value: T) -> (input: Self)
        ensures
            input.wf(),
            input@.value == initial_value.as_int(),
            input@.negative == (initial_value.as_int() < 0),
    {
        proof {
            initial_value.lemma_bounded();
            T::lemma_range();
            T::lemma_signed_range();
        }
        Self { current: initial_value, negative: initial_value.is_negative() }
    }

    /// Stores `value`. A zero keeps the sign that was shown before.
    pub fn set(&mut self, value: T)
        ensures
            final(self)@ == old(self)@.set(value.as_int()),
            final(self)@.value == value.as_int(),
            value.as_int() == 0 ==> final(self)@.negative == old(self)@.negative,
            value.as_int() != 0 ==> final(self)@.negative == (value.as_int() < 0),
            final(self).wf(),
    {
        proof {
            value.lemma_bounded();
            T::lemma_range();
            T::lemma_signed_range();
        }
        self.current = clamp(value, T::min_value(), T::max_value());
        // If the user removes all digits, keep the sign the same
        if !value.equals(&zero()) {
            self.negative = value.is_negative();
        }
    }

    /// Adds `value`, stopping at the bounds of `T`.
    pub fn add(&mut self, value: T) -> (this: &mut Self)
        ensures
            this@ == old(self)@.add(value.as_int()),
            this.wf(),
            *final(self) == *final(this),
    {
        self.set(self.current.saturating_add(&value));
        self
    }

    /// Subtracts `value`, stopping at the bounds of `T`.
    pub fn sub(&mut self, value: T) -> (this: &mut Self)
        ensures
            this@ == old(self)@.sub(value.as_int()),
            this.wf(),
            *final(self) == *final(this),
    {
        self.set(self.current.saturating_sub(&value));
        self
    }

    /// Multiplies by `value`, stopping at the bounds of `T`.
    pub fn multiply(&mut self, value: T) -> (this: &mut Self)
        ensures
            this@ == old(self)@.multiply(value.as_int()),
            this.wf(),
            *final(self) == *final(this),
    {
        self.set(self.current.saturating_mul(&value));
        self
    }

    /// Changes the sign. At zero only the sign that is shown flips.
    pub fn invert(&mut self)
        ensures
            final(self)@ == old(self)@.invert(),
            final(self).wf(),
    {
        proof {
            self.current.lemma_bounded();
            T::lemma_range();
            T::lemma_signed_range();
        }
        if self.current.equals(&zero()) {
            self.negative = !self.negative;
        } else {
            let z: T = zero();
            self.set(z.saturating_sub(&self.current))
        }
    }

    /// Drops the last decimal digit.
    pub fn remove_digit(&mut self)
        ensures
            final(self)@ == old(self)@.remove_digit(),
            final(self).wf(),
    {
        // integer division with 10
        self.set(self.current.quotient(&ten()))
    }

    /// The value the input holds.
    pub fn value(&self) -> (current: T)
        ensures
            current.as_int() == self@.value,
    {
        self.current
    }

    /// Types one character. Tells whether it was a digit; only then does
    /// the input change.
    pub fn append_digit(&mut self, digit: char) -> (consumed: bool)
        ensures
            consumed == is_digit(digit),
            final(self)@ == old(self)@.append_digit(digit),
            old(self).wf() ==> final(self).wf(),
    {
        if let Some(dig) = to_digit(digit) {
            proof {
                T::lemma_range();
            }
            // instead of converting to string, just multiply by 10 and add/sub
            // the digit. This way, we also cap out at the min/max of the number
            if self.negative {
                self.multiply(ten()).sub(T::from_u32(dig).unwrap());
            } else {
                self.multiply(ten()).add(T::from_u32(dig).unwrap());
            }
            true
        } else {
            false
        }
    }

    /// Applies one event and tells whether the user submitted or cancelled.
    pub fn handle_event(&mut self, event: Event) -> (response: NumInputResponse)
        ensures
            final(self)@ == old(self)@.after_event(event),
            response == response_to(event),
            old(self).wf() ==> final(self).wf(),
    {
        if let Event::Key(code) = event {
            match code {
                KeyCode::Char(c) => {
                    if !self.append_digit(c) && c == '-' {
                        self.invert();
                    }
                },
                KeyCode::Backspace => {
                    self.remove_digit();
                },
                KeyCode::Up => {
                    self.add(one());
                },
                KeyCode::Down => {
                    self.sub(one());
                },
                KeyCode::Enter => {
                    return NumInputResponse::Submit;
                },
                KeyCode::Esc => {
                    return NumInputResponse::Cancel;
                },
                _ => {},
            }
        }
        NumInputResponse::Nothing
    }
}

impl<T: InputSignedInt> Spannable for SignedIntInput<T> {
    open spec fn spans(&self) -> Seq<(Seq<char>, Style)> {
        self@.spans()
    }

    fn get_spans(&self) -> (spans: Spans) {
        let mut spans = Spans::new();
        spans.push(sign_span(self.negative));
        let number_no_sign = if self.current.is_negative() {
            let base = self.current.to_text();
            proof {
                reveal_strlit("-");
                assert(base@.subrange(1, base@.len() as int) =~= nat_text(
                    magnitude(self.current.as_int()),
                ));
            }
            let len = base.as_str().unicode_len();
            if len > 0 {
                base.as_str().substring_char(1, len).to_owned()
            } else {
                base
            }
        } else {
            self.current.to_text()
        };
        spans.push(Span::raw(number_no_sign));
        assert(spans@ =~= seq![
            (sign_text(self.negative), Style::Accent),
            (nat_text(magnitude(self.current.as_int())), Style::Plain),
        ]);
        push_bound_note(&mut spans, self.current);
        spans
    }
}

} // verus!
