//! The floating-point input: a finite number typed digit by digit, a signed
//! infinity, or not-a-number.
//!
//! A finite number is kept as two digit strings, one before and one after the
//! decimal point, so that every keystroke edits text and nothing is parsed
//! and formatted again while the user types.

use vstd::prelude::*;
use super::text::{
    all_digits, find_char, is_ascii_digit, is_digit, is_digit_string,
    lemma_strip_leading_keeps_digits, strip_leading, trim_leading_zeros,
};
use super::{response_to, sign_span, sign_text, NumInputResponse};
use crate::span_builder::{Span, Spans, Style};
use crate::{Event, KeyCode, Spannable};

verus! {

/// Why a float input could not be made from a value.
#[derive(Debug, Clone, Copy, PartialEq, Eq, Structural)]
pub enum NewFloatError {
    /// The float was neither infinite, not-a-number, nor finite.
    InvalidState,
    /// The float's text is not a decimal number.
    ParseError,
}

/// A finite number under edit.
#[derive(Debug)]
pub struct FloatNum {
    whole: String,
    integral: Option<String>,
    negative: bool,
}

/// What a [`FloatNum`] holds.
pub struct FloatNumView {
    /// The digits before the decimal point. Empty stands for zero.
    pub whole: Seq<char>,
    /// The digits after the decimal point, once the point has been typed.
    pub integral: Option<Seq<char>>,
    /// Whether the number carries a minus sign.
    pub negative: bool,
}

impl FloatNumView {
    /// Both parts hold digits only.
    pub open spec fn wf(self) -> bool {
        &&& all_digits(self.whole)
        &&& self.integral matches Some(fraction) ==> all_digits(fraction)
    }

    /// The number as it is written out in full: a minus sign if it is
    /// negative, the whole part as it stands, and the point with the
    /// fractional digits if the point has been typed.
    pub open spec fn written(self) -> Seq<char> {
        let sign = if self.negative {
            "-"@
        } else {
            Seq::empty()
        };
        let rest = match self.integral {
            Some(fraction) => "."@ + fraction,
            None => Seq::empty(),
        };
        sign + self.whole + rest
    }

    /// There is a digit on at least one side of the point.
    pub open spec fn has_digit(self) -> bool {
        self.whole.len() > 0 || (self.integral matches Some(fraction) && fraction.len() > 0)
    }

    /// The number as decimal text, without its sign: the whole part, `0` if
    /// it is empty, then the point and the fractional digits if the point
    /// has been typed.
    pub open spec fn text(self) -> Seq<char> {
        let whole = if self.whole.len() == 0 {
            "0"@
        } else {
            self.whole
        };
        match self.integral {
            Some(fraction) => whole + "."@ + fraction,
            None => whole,
        }
    }
}

impl View for FloatNum {
    type V = FloatNumView;

    closed spec fn view(&self) -> FloatNumView {
        FloatNumView {
            whole: self.whole@,
            integral: match self.integral {
                Some(fraction) => Some(fraction@),
                None => None,
            },
            negative: self.negative,
        }
    }
}

/// The state of a float input.
#[derive(Debug)]
pub enum FloatValue {
    Infinity { negative: bool },
    Nan,
    Number(FloatNum),
}

/// What a [`FloatValue`] holds.
pub enum FloatValueView {
    Infinity { negative: bool },
    Nan,
    Number(FloatNumView),
}

impl FloatValueView {
    /// A number holds digits only; the other states hold nothing to check.
    pub open spec fn wf(self) -> bool {
        self matches FloatValueView::Number(number) ==> number.wf()
    }

    /// The finite number zero with nothing typed yet.
    pub open spec fn zero() -> FloatValueView {
        FloatValueView::Number(
            FloatNumView { whole: Seq::empty(), integral: None, negative: false },
        )
    }

    /// The state after the character `digit` is typed.
    ///
    /// In a number, a digit goes to the fractional part if the point has been
    /// typed and to the whole part otherwise, where leading zeros are then
    /// dropped; a point starts the fractional part unless there is one.
    /// Anything else, and any character outside a number, changes nothing.
    pub open spec fn push_digit(self, digit: char) -> FloatValueView {
        match self {
            FloatValueView::Number(number) => {
                if is_digit(digit) {
                    match number.integral {
                        Some(fraction) => FloatValueView::Number(
                            FloatNumView {
                                whole: number.whole,
                                integral: Some(fraction.push(digit)),
                                negative: number.negative,
                            },
                        ),
                        None => FloatValueView::Number(
                            FloatNumView {
                                whole: strip_leading(number.whole.push(digit), '0'),
                                integral: None,
                                negative: number.negative,
                            },
                        ),
                    }
                } else if digit == '.' && number.integral is None {
                    FloatValueView::Number(
                        FloatNumView {
                            whole: number.whole,
                            integral: Some(Seq::empty()),
                            negative: number.negative,
                        },
                    )
                } else {
                    self
                }
            },
            _ => self,
        }
    }

    /// The state after a backspace.
    ///
    /// In a number with a fractional part, the last fractional digit goes,
    /// or the point itself if no fractional digit is left; without a
    /// fractional part, the last digit of the whole part goes, if there is
    /// one. Outside a number nothing changes.
    pub open spec fn remove_digit(self) -> FloatValueView {
        match self {
            FloatValueView::Number(number) => match number.integral {
                Some(fraction) => FloatValueView::Number(
                    FloatNumView {
                        whole: number.whole,
                        integral: if fraction.len() == 0 {
                            None
                        } else {
                            Some(fraction.drop_last())
                        },
                        negative: number.negative,
                    },
                ),
                None => FloatValueView::Number(
                    FloatNumView {
                        whole: if number.whole.len() == 0 {
                            number.whole
                        } else {
                            number.whole.drop_last()
                        },
                        integral: None,
                        negative: number.negative,
                    },
                ),
            },
            _ => self,
        }
    }

    /// The state with the sign flipped. Not-a-number has no sign.
    pub open spec fn toggle_sign(self) -> FloatValueView {
        match self {
            FloatValueView::Number(number) => FloatValueView::Number(
                FloatNumView {
                    whole: number.whole,
                    integral: number.integral,
                    negative: !number.negative,
                },
            ),
            FloatValueView::Infinity { negative } => FloatValueView::Infinity {
                negative: !negative,
            },
            FloatValueView::Nan => self,
        }
    }

    /// The next representation: a number becomes positive infinity, an
    /// infinity becomes not-a-number, and not-a-number becomes zero.
    pub open spec fn cycle(self) -> FloatValueView {
        match self {
            FloatValueView::Number(_) => FloatValueView::Infinity { negative: false },
            FloatValueView::Infinity { .. } => FloatValueView::Nan,
            FloatValueView::Nan => FloatValueView::zero(),
        }
    }

    /// The state after `event`: digits and the point are typed, `-` flips
    /// the sign, backspace removes, tab cycles the representation, and
    /// nothing else has an effect.
    pub open spec fn after_event(self, event: Event) -> FloatValueView {
        match event {
            Event::Key(KeyCode::Char(c)) => {
                if is_digit(c) || c == '.' {
                    self.push_digit(c)
                } else if c == '-' {
                    self.toggle_sign()
                } else {
                    self
                }
            },
            Event::Key(KeyCode::Backspace) => self.remove_digit(),
            Event::Key(KeyCode::Tab) => self.cycle(),
            _ => self,
        }
    }

    /// The fragments the state renders as: a sign indicator or prompt, then
    /// the number's text or the name of the special value.
    pub open spec fn spans(self) -> Seq<(Seq<char>, Style)> {
        match self {
            FloatValueView::Infinity { negative } => seq![
                (sign_text(negative), Style::Accent),
                ("inf"@, Style::Plain),
            ],
            FloatValueView::Nan => seq![("> "@, Style::Accent), ("NaN"@, Style::Plain)],
            FloatValueView::Number(number) => seq![
                (sign_text(number.negative), Style::Accent),
                (number.text(), Style::Plain),
            ],
        }
    }
}

/// Typing keeps a well-formed state well-formed.
pub proof fn lemma_push_digit_wf(state: FloatValueView, digit: char)
    requires
        state.wf(),
    ensures
        state.push_digit(digit).wf(),
{
    if let FloatValueView::Number(number) = state {
        if is_digit(digit) && number.integral is None {
            lemma_strip_leading_keeps_digits(number.whole.push(digit), '0');
        }
    }
}

/// Every event keeps a well-formed state well-formed.
pub proof fn lemma_after_event_wf(state: FloatValueView, event: Event)
    requires
        state.wf(),
    ensures
        state.after_event(event).wf(),
{
    if let Event::Key(KeyCode::Char(c)) = event {
        lemma_push_digit_wf(state, c);
    }
}

/// A backspace over a decimal point with no digit behind it removes the
/// point, and what is typed next goes to the whole part again.
pub proof fn lemma_backspace_over_point(number: FloatNumView, digit: char)
    requires
        number.integral == Some(Seq::<char>::empty()),
        is_digit(digit),
    ensures
        FloatValueView::Number(number).remove_digit() == FloatValueView::Number(
            FloatNumView { whole: number.whole, integral: None, negative: number.negative },
        ),
        FloatValueView::Number(number).remove_digit().push_digit(digit)
            == FloatValueView::Number(
            FloatNumView {
                whole: strip_leading(number.whole.push(digit), '0'),
                integral: None,
                negative: number.negative,
            },
        ),
{
}

/// Cycling a number through infinity and not-a-number comes back to a
/// number, and that number is zero, whatever was typed before.
pub proof fn lemma_cycle_returns_to_zero(state: FloatValueView)
    requires
        state is Number,
    ensures
        state.cycle() == (FloatValueView::Infinity { negative: false }),
        state.cycle().cycle() == FloatValueView::Nan,
        state.cycle().cycle().cycle() == FloatValueView::zero(),
        FloatValueView::zero().wf(),
        FloatValueView::zero()->Number_0.text() == "0"@,
        !FloatValueView::zero()->Number_0.negative,
{
}

/// What a float input currently stands for: a special value, or the decimal
/// text of a finite number together with its sign.
#[derive(Debug)]
pub enum FloatReading {
    Infinity { negative: bool },
    Nan,
    /// The unsigned decimal `text`, negated if `negative`.
    Number { text: String, negative: bool },
}

impl View for FloatValue {
    type V = FloatValueView;

    open spec fn view(&self) -> FloatValueView {
        match self {
            FloatValue::Infinity { negative } => FloatValueView::Infinity { negative: *negative },
            FloatValue::Nan => FloatValueView::Nan,
            FloatValue::Number(number) => FloatValueView::Number(number@),
        }
    }
}

/// What is known of a native floating-point value when an input is made
/// from it: how it classifies, its sign bit, and its decimal text.
#[derive(Debug)]
pub struct FloatSource {
    pub is_infinite: bool,
    pub is_nan: bool,
    pub is_finite: bool,
    pub is_sign_negative: bool,
    /// The value as text. Read for finite values only.
    pub repr: String,
}

/// The number that the decimal text `repr` writes: an optional minus sign,
/// then digits, optionally a point and more digits, with a digit on at least
/// one side of the point.
pub open spec fn parse_repr(repr: Seq<char>) -> Result<FloatNumView, NewFloatError> {
    let negative = repr.len() > 0 && repr[0] == '-';
    let body = if negative {
        repr.subrange(1, repr.len() as int)
    } else {
        repr
    };
    match body.index_of_first('.') {
        Some(dot) => {
            let first = body.subrange(0, dot);
            let second = body.subrange(dot + 1, body.len() as int);
            if first.len() == 0 && second.len() == 0 {
                Err(NewFloatError::ParseError)
            } else if !all_digits(first) || !all_digits(second) {
                Err(NewFloatError::ParseError)
            } else {
                Ok(FloatNumView { whole: first, integral: Some(second), negative })
            }
        },
        None => {
            if body.len() == 0 || !all_digits(body) {
                Err(NewFloatError::ParseError)
            } else {
                Ok(FloatNumView { whole: body, integral: None, negative })
            }
        },
    }
}

/// Reading is the inverse of writing: the text that a number with at least
/// one digit is written as reads back as that number.
pub proof fn lemma_parse_inverts_writing(number: FloatNumView)
    requires
        number.wf(),
        number.has_digit(),
    ensures
        parse_repr(number.written()) == Ok::<FloatNumView, NewFloatError>(number),
{
    reveal_strlit("-");
    reveal_strlit(".");
    let repr = number.written();
    let rest = match number.integral {
        Some(fraction) => "."@ + fraction,
        None => Seq::empty(),
    };
    let body = number.whole + rest;
    if number.negative {
        assert(repr[0] == '-');
        assert(repr.subrange(1, repr.len() as int) =~= body);
    } else {
        assert(repr =~= body);
        assert(repr.len() > 0);
        if number.whole.len() > 0 {
            assert(repr[0] == number.whole[0]);
            assert(is_digit(number.whole[0]));
        } else {
            assert(repr[0] == '.');
        }
    }
    body.index_of_first_ensures('.');
    match number.integral {
        Some(fraction) => {
            let at = number.whole.len() as int;
            assert(body[at] == '.');
            assert(body.contains('.'));
            let dot = body.index_of_first('.')->0;
            if dot < at {
                assert(body[dot] == number.whole[dot]);
                assert(is_digit(number.whole[dot]));
            }
            assert(dot == at);
            assert(body.subrange(0, dot) =~= number.whole);
            assert(body.subrange(dot + 1, body.len() as int) =~= fraction);
        },
        None => {
            assert(body =~= number.whole);
            if body.contains('.') {
                let i = choose|i: int| 0 <= i < body.len() && body[i] == '.';
                assert(is_digit(number.whole[i]));
            }
        },
    }
}

/// What reads as a number is the text that this number is written as, and
/// the number is well-formed and has at least one digit.
pub proof fn lemma_parse_is_written(repr: Seq<char>)
    requires
        parse_repr(repr) is Ok,
    ensures
        parse_repr(repr)->Ok_0.wf(),
        parse_repr(repr)->Ok_0.has_digit(),
        parse_repr(repr)->Ok_0.written() == repr,
{
    reveal_strlit("-");
    reveal_strlit(".");
    let number = parse_repr(repr)->Ok_0;
    let body = if number.negative {
        repr.subrange(1, repr.len() as int)
    } else {
        repr
    };
    body.index_of_first_ensures('.');
    match body.index_of_first('.') {
        Some(dot) => {
            assert(body =~= body.subrange(0, dot) + "."@ + body.subrange(
                dot + 1,
                body.len() as int,
            ));
        },
        None => {},
    }
    if number.negative {
        assert(repr =~= "-"@ + body);
    }
    assert(number.written() =~= repr);
}

/// The text that a well-formed number is read out as is always a decimal
/// number: it reads back as the number itself, unsigned and with `0` for an
/// empty whole part.
pub proof fn lemma_text_reads_back(number: FloatNumView)
    requires
        number.wf(),
    ensures
        parse_repr(number.text()) == Ok::<FloatNumView, NewFloatError>(
            FloatNumView {
                whole: if number.whole.len() == 0 {
                    "0"@
                } else {
                    number.whole
                },
                integral: number.integral,
                negative: false,
            },
        ),
{
    reveal_strlit("0");
    let shown = FloatNumView {
        whole: if number.whole.len() == 0 {
            "0"@
        } else {
            number.whole
        },
        integral: number.integral,
        negative: false,
    };
    assert(shown.written() =~= number.text());
    lemma_parse_inverts_writing(shown);
}

impl FloatSource {
    /// The state an input made from this value starts in. Infinity is
    /// tested first, then not-a-number, then finiteness; a value that is
    /// none of the three is refused.
    pub open spec fn classified(&self) -> Result<FloatValueView, NewFloatError> {
        if self.is_infinite {
            Ok(FloatValueView::Infinity { negative: self.is_sign_negative })
        } else if self.is_nan {
            Ok(FloatValueView::Nan)
        } else if self.is_finite {
            match parse_repr(self.repr@) {
                Ok(number) => Ok(FloatValueView::Number(number)),
                Err(error) => Err(error),
            }
        } else {
            Err(NewFloatError::InvalidState)
        }
    }
}

/// Accepts `string` if it holds digits only.
pub fn parse_digit_string(string: &str) -> (parsed: Result<&str, NewFloatError>)
    ensures
        all_digits(string@) ==> parsed == Ok::<&str, NewFloatError>(string),
        !all_digits(string@) ==> parsed == Err::<&str, NewFloatError>(NewFloatError::ParseError),
{
    if is_digit_string(string) {
        Ok(string)
    } else {
        Err(NewFloatError::ParseError)
    }
}

/// Splits decimal text into sign, whole part and fractional part.
fn parse_number(repr: &str) -> (parsed: Result<FloatNum, NewFloatError>)
    ensures
        match parsed {
            Ok(number) => parse_repr(repr@) == Ok::<FloatNumView, NewFloatError>(number@),
            Err(error) => parse_repr(repr@) == Err::<FloatNumView, NewFloatError>(error),
        },
{
    let len = repr.unicode_len();
    let is_negative = len > 0 && repr.get_char(0) == '-';
    let repr_no_sign = if is_negative {
        repr.substring_char(1, len)
    } else {
        repr
    };
    assert(repr_no_sign@ == if is_negative {
        repr@.subrange(1, repr@.len() as int)
    } else {
        repr@
    });
    let body_len = repr_no_sign.unicode_len();
    match find_char(repr_no_sign, '.') {
        Some(dot) => {
            let first_maybe = repr_no_sign.substring_char(0, dot);
            let second_maybe = repr_no_sign.substring_char(dot + 1, body_len);
            if first_maybe.unicode_len() == 0 && second_maybe.unicode_len() == 0 {
                return Err(NewFloatError::ParseError);
            }
            let whole = match parse_digit_string(first_maybe) {
                Ok(digits) => digits.to_owned(),
                Err(error) => {
                    return Err(error);
                },
            };
            let integral = match parse_digit_string(second_maybe) {
                Ok(digits) => digits.to_owned(),
                Err(error) => {
                    return Err(error);
                },
            };
            Ok(FloatNum { whole, integral: Some(integral), negative: is_negative })
        },
        None => {
            if body_len == 0 {
                return Err(NewFloatError::ParseError);
            }
            let whole = match parse_digit_string(repr_no_sign) {
                Ok(digits) => digits.to_owned(),
                Err(error) => {
                    return Err(error);
                },
            };
            Ok(FloatNum { whole, integral: None, negative: is_negative })
        },
    }
}

/// A float input.
#[derive(Debug)]
pub struct FloatInput {
    value: FloatValue,
}

impl View for FloatInput {
    type V = FloatValueView;

    closed spec fn view(&self) -> FloatValueView {
        self.value@
    }
}

impl FloatInput {
    /// The input holds a well-formed state.
    pub open spec fn wf(&self) -> bool {
        self@.wf()
    }

    /// An input that starts at the given value.
    ///
    /// An infinite value gives the infinity state with the value's sign, a
    /// not-a-number value the not-a-number state, and a finite value the
    /// number that its text writes. The text of a finite value that is not a
    /// decimal number is refused with `ParseError`; a value that is neither
    /// infinite, not-a-number nor finite is refused with `InvalidState`.
    pub fn new(initial_value: FloatSource) -> (made: Result<FloatInput, NewFloatError>)
        ensures
            match made {
                Ok(input) => initial_value.classified() == Ok::<FloatValueView, NewFloatError>(
                    input@,
                ) && input.wf(),
                Err(error) => initial_value.classified() == Err::<FloatValueView, NewFloatError>(
                    error,
                ),
            },
    {
        let value = if initial_value.is_infinite {
            FloatValue::Infinity { negative: initial_value.is_sign_negative }
        } else if initial_value.is_nan {
            FloatValue::Nan
        } else if initial_value.is_finite {
            match parse_number(initial_value.repr.as_str()) {
                Ok(number) => FloatValue::Number(number),
                Err(error) => {
                    return Err(error);
                },
            }
        } else {
            return Err(NewFloatError::InvalidState);
        };
        Ok(FloatInput { value })
    }

    /// Types one character: a digit or the decimal point.
    pub fn push_digit(&mut self, digit: char)
        ensures
            final(self)@ == old(self)@.push_digit(digit),
            old(self).wf() ==> final(self).wf(),
    {
        proof {
            if self.wf() {
                lemma_push_digit_wf(self@, digit);
            }
        }
        if let FloatValue::Number(value) = &mut self.value {
            if is_ascii_digit(digit) {
                match &mut value.integral {
                    Some(fraction) => {
                        fraction.push(digit);
                    },
                    None => {
                        value.whole.push(digit);
                        value.whole = trim_leading_zeros(value.whole.as_str());
                    },
                }
            } else if digit == '.' && value.integral.is_none() {
                value.integral = Some(String::new());
            }
        }
    }

    /// Removes what was typed last: a digit, or the decimal point.
    pub fn remove_digit(&mut self)
        ensures
            final(self)@ == old(self)@.remove_digit(),
            old(self).wf() ==> final(self).wf(),
    {
        if let FloatValue::Number(value) = &mut self.value {
            if let Some(integral) = &mut value.integral {
                if integral.as_str().unicode_len() == 0 {
                    value.integral = None;
                } else {
                    integral.pop();
                }
            } else {
                value.whole.pop();
            }
        }
    }

    /// Flips the sign of a number or an infinity.
    pub fn toggle_sign(&mut self)
        ensures
            final(self)@ == old(self)@.toggle_sign(),
            old(self).wf() ==> final(self).wf(),
    {
        match &mut self.value {
            FloatValue::Number(num) => {
                num.negative = !num.negative;
            },
            FloatValue::Infinity { negative } => {
                *negative = !*negative;
            },
            FloatValue::Nan => {},
        }
    }

    /// Steps to the next representation: number, infinity, not-a-number,
    /// and back to a number, which then is zero.
    pub fn cycle(&mut self)
        ensures
            final(self)@ == old(self)@.cycle(),
            final(self).wf(),
    {
        let next = match &self.value {
            FloatValue::Number(_) => FloatValue::Infinity { negative: false },
            FloatValue::Infinity { .. } => FloatValue::Nan,
            FloatValue::Nan => FloatValue::Number(
                FloatNum { whole: String::new(), integral: None, negative: false },
            ),
        };
        self.value = next;
    }

    /// What the input currently stands for. A finite number is given as its
    /// decimal text and its sign.
    pub fn value(&self) -> (reading: FloatReading)
        ensures
            match reading {
                FloatReading::Infinity { negative } => self@ == (FloatValueView::Infinity {
                    negative,
                }),
                FloatReading::Nan => self@ is Nan,
                FloatReading::Number { text, negative } => self@ matches FloatValueView::Number(
                    number,
                ) && text@ == number.text() && negative == number.negative,
            },
    {
        match &self.value {
            FloatValue::Infinity { negative } => FloatReading::Infinity { negative: *negative },
            FloatValue::Nan => FloatReading::Nan,
            FloatValue::Number(number) => FloatReading::Number {
                text: number.text(),
                negative: number.negative,
            },
        }
    }

    /// Applies one event and tells whether the user submitted or cancelled.
    pub fn handle_event(&mut self, event: Event) -> (response: NumInputResponse)
        ensures
            final(self)@ == old(self)@.after_event(event),
            response == response_to(event),
            old(self).wf() ==> final(self).wf(),
    {
        proof {
            if self.wf() {
                lemma_after_event_wf(self@, event);
            }
        }
        if let Event::Key(code) = event {
            match code {
                KeyCode::Char(c) => {
                    if is_ascii_digit(c) || c == '.' {
                        self.push_digit(c)
                    } else if c == '-' {
                        self.toggle_sign()
                    }
                },
                KeyCode::Backspace => {
                    self.remove_digit();
                },
                KeyCode::Tab => {
                    self.cycle();
                },
                KeyCode::Enter => {
                    return NumInputResponse::Submit;
                },
                KeyCode::Esc => {
                    return NumInputResponse::Cancel;
                },
                _ => {},
            }
        }
        NumInputResponse::Nothing
    }
}

impl FloatNum {
    /// The number as decimal text, without its sign.
    fn text(&self) -> (entire: String)
        ensures
            entire@ == self@.text(),
    {
        let whole_part = if self.whole.as_str().unicode_len() == 0 {
            "0"
        } else {
            self.whole.as_str()
        };
        match &self.integral {
            Some(integral) => {
                let mut entire = String::from_str(whole_part);
                entire.append(".");
                entire.append(integral.as_str());
                entire
            },
            None => String::from_str(whole_part),
        }
    }
}

impl Spannable for FloatInput {
    open spec fn spans(&self) -> Seq<(Seq<char>, Style)> {
        self@.spans()
    }

    fn get_spans(&self) -> (spans: Spans) {
        let mut spans = Spans::new();
        match &self.value {
            FloatValue::Infinity { negative } => {
                spans.push(sign_span(*negative));
                spans.push(Span::raw(String::from_str("inf")));
            },
            FloatValue::Nan => {
                spans.push(Span::styled(String::from_str("> "), Style::Accent));
                spans.push(Span::raw(String::from_str("NaN")));
            },
            FloatValue::Number(number) => {
                spans.push(sign_span(number.negative));
                spans.push(Span::raw(number.text()));
            },
        }
        assert(spans@ =~= self@.spans());
        spans
    }
}

} // verus!
