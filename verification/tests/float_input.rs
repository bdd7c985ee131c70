use tui_components::components::num_input::float::parse_digit_string;
use tui_components::components::num_input::{
    FloatInput, FloatReading, FloatSource, NewFloatError, NumInputResponse,
};
use tui_components::span_builder::{Spans, Style};
use tui_components::{Event, KeyCode, Spannable};

fn fragments(spans: Spans) -> Vec<(String, Style)> {
    spans.0.into_iter().map(|span| (span.content, span.style)).collect()
}

fn source_of(value: f64) -> FloatSource {
    FloatSource {
        is_infinite: value.is_infinite(),
        is_nan: value.is_nan(),
        is_finite: value.is_finite(),
        is_sign_negative: value.is_sign_negative(),
        repr: value.to_string(),
    }
}

fn finite(repr: &str) -> FloatSource {
    FloatSource {
        is_infinite: false,
        is_nan: false,
        is_finite: true,
        is_sign_negative: false,
        repr: repr.to_string(),
    }
}

fn number_of(input: &FloatInput) -> f64 {
    match input.value() {
        FloatReading::Infinity { negative } => {
            if negative {
                f64::NEG_INFINITY
            } else {
                f64::INFINITY
            }
        }
        FloatReading::Nan => f64::NAN,
        FloatReading::Number { text, negative } => {
            let raw: f64 = text.parse().unwrap();
            if negative {
                -raw
            } else {
                raw
            }
        }
    }
}

fn text_of(input: &FloatInput) -> String {
    fragments(input.get_spans())[1].0.clone()
}

fn sign_of(input: &FloatInput) -> String {
    fragments(input.get_spans())[0].0.clone()
}

fn key(c: char) -> Event {
    Event::Key(KeyCode::Char(c))
}

#[test]
fn typing_twelve_point_five() {
    let mut input = FloatInput::new(source_of(0.0)).unwrap();
    input.push_digit('1');
    input.push_digit('2');
    input.push_digit('.');
    input.push_digit('5');
    assert_eq!(text_of(&input), "12.5");
    assert_eq!(number_of(&input), 12.5);
    assert_eq!(
        fragments(input.get_spans()),
        vec![("+ ".to_string(), Style::Accent), ("12.5".to_string(), Style::Plain)]
    );
}

#[test]
fn backspace_removes_the_point() {
    let mut input = FloatInput::new(source_of(0.0)).unwrap();
    input.push_digit('3');
    input.push_digit('.');
    assert_eq!(text_of(&input), "3.");
    input.remove_digit();
    assert_eq!(text_of(&input), "3");
    input.push_digit('4');
    assert_eq!(text_of(&input), "34");
    input.remove_digit();
    input.remove_digit();
    assert_eq!(format!("{:?}", input.value()), "Number { text: \"0\", negative: false }");
    assert_eq!(number_of(&input), 0.0);
    input.remove_digit();
    assert_eq!(number_of(&input), 0.0);
}

#[test]
fn backspace_through_the_fraction() {
    let mut input = FloatInput::new(source_of(1.25)).unwrap();
    assert_eq!(text_of(&input), "1.25");
    input.remove_digit();
    assert_eq!(text_of(&input), "1.2");
    input.remove_digit();
    assert_eq!(text_of(&input), "1.");
    input.remove_digit();
    assert_eq!(text_of(&input), "1");
    input.remove_digit();
    assert_eq!(text_of(&input), "0");
}

#[test]
fn cycling_comes_back_to_zero() {
    let mut input = FloatInput::new(source_of(42.5)).unwrap();
    let tab = Event::Key(KeyCode::Tab);
    assert_eq!(input.handle_event(tab), NumInputResponse::Nothing);
    assert_eq!(number_of(&input), f64::INFINITY);
    assert_eq!(
        fragments(input.get_spans()),
        vec![("+ ".to_string(), Style::Accent), ("inf".to_string(), Style::Plain)]
    );
    input.handle_event(tab);
    assert!(number_of(&input).is_nan());
    assert_eq!(
        fragments(input.get_spans()),
        vec![("> ".to_string(), Style::Accent), ("NaN".to_string(), Style::Plain)]
    );
    input.handle_event(tab);
    assert_eq!(number_of(&input), 0.0);
    assert!(number_of(&input).is_sign_positive());
    assert_eq!(text_of(&input), "0");
    input.push_digit('7');
    assert_eq!(text_of(&input), "7");
}

#[test]
fn cycle_by_method() {
    let mut input = FloatInput::new(source_of(-3.0)).unwrap();
    input.cycle();
    assert!(matches!(input.value(), FloatReading::Infinity { negative: false }));
    input.cycle();
    assert!(matches!(input.value(), FloatReading::Nan));
    input.cycle();
    assert_eq!(sign_of(&input), "+ ");
    assert_eq!(text_of(&input), "0");
}

#[test]
fn made_from_special_values() {
    let input = FloatInput::new(source_of(f64::INFINITY)).unwrap();
    assert!(matches!(input.value(), FloatReading::Infinity { negative: false }));
    let input = FloatInput::new(source_of(f64::NEG_INFINITY)).unwrap();
    assert!(matches!(input.value(), FloatReading::Infinity { negative: true }));
    assert_eq!(
        fragments(input.get_spans()),
        vec![("- ".to_string(), Style::Accent), ("inf".to_string(), Style::Plain)]
    );
    let input = FloatInput::new(source_of(f64::NAN)).unwrap();
    assert!(matches!(input.value(), FloatReading::Nan));
}

#[test]
fn made_from_finite_values() {
    let input = FloatInput::new(source_of(-1.5)).unwrap();
    assert_eq!(sign_of(&input), "- ");
    assert_eq!(text_of(&input), "1.5");
    assert_eq!(number_of(&input), -1.5);
    let input = FloatInput::new(source_of(250.0)).unwrap();
    assert_eq!(text_of(&input), "250");
    assert_eq!(number_of(&input), 250.0);
    let input = FloatInput::new(source_of(0.001)).unwrap();
    assert_eq!(text_of(&input), "0.001");
    let input = FloatInput::new(source_of(-0.0)).unwrap();
    assert_eq!(sign_of(&input), "- ");
    assert_eq!(text_of(&input), "0");
    let input = FloatInput::new(source_of(1e21)).unwrap();
    assert_eq!(text_of(&input), "1000000000000000000000");
}

#[test]
fn text_with_a_bare_point_is_taken_apart() {
    let input = FloatInput::new(finite(".5")).unwrap();
    assert_eq!(text_of(&input), "0.5");
    let input = FloatInput::new(finite("5.")).unwrap();
    assert_eq!(text_of(&input), "5.");
    let input = FloatInput::new(finite("-.25")).unwrap();
    assert_eq!(sign_of(&input), "- ");
    assert_eq!(text_of(&input), "0.25");
}

#[test]
fn text_that_is_no_decimal_is_refused() {
    for repr in ["", "-", ".", "-.", "1e5", "abc", "1.2.3", "--1", "1-", "+1", " 1", "1,5", "\u{0663}"] {
        assert_eq!(
            FloatInput::new(finite(repr)).err(),
            Some(NewFloatError::ParseError),
            "{:?}",
            repr
        );
    }
}

#[test]
fn a_value_of_no_class_is_refused() {
    let source = FloatSource {
        is_infinite: false,
        is_nan: false,
        is_finite: false,
        is_sign_negative: false,
        repr: "1".to_string(),
    };
    assert_eq!(FloatInput::new(source).err(), Some(NewFloatError::InvalidState));
}

#[test]
fn classes_are_tested_in_order() {
    let source = FloatSource {
        is_infinite: true,
        is_nan: true,
        is_finite: true,
        is_sign_negative: true,
        repr: "junk".to_string(),
    };
    let input = FloatInput::new(source).unwrap();
    assert!(matches!(input.value(), FloatReading::Infinity { negative: true }));
    let source = FloatSource {
        is_infinite: false,
        is_nan: true,
        is_finite: true,
        is_sign_negative: true,
        repr: "junk".to_string(),
    };
    let input = FloatInput::new(source).unwrap();
    assert!(matches!(input.value(), FloatReading::Nan));
}

#[test]
fn leading_zeros_are_trimmed_in_the_whole_part() {
    let mut input = FloatInput::new(source_of(0.0)).unwrap();
    input.push_digit('0');
    input.push_digit('0');
    assert_eq!(format!("{:?}", input.value()), "Number { text: \"0\", negative: false }");
    input.push_digit('7');
    input.push_digit('0');
    assert_eq!(text_of(&input), "70");
    input.push_digit('.');
    input.push_digit('0');
    input.push_digit('0');
    input.push_digit('5');
    assert_eq!(text_of(&input), "70.005");
    assert_eq!(number_of(&input), 70.005);
}

#[test]
fn zeros_behind_the_point_stay() {
    let mut input = FloatInput::new(source_of(0.0)).unwrap();
    input.push_digit('.');
    input.push_digit('0');
    assert_eq!(text_of(&input), "0.0");
    input.push_digit('.');
    assert_eq!(text_of(&input), "0.0");
    input.push_digit('x');
    input.push_digit('-');
    assert_eq!(text_of(&input), "0.0");
}

#[test]
fn minus_toggles_the_sign() {
    let mut input = FloatInput::new(source_of(2.5)).unwrap();
    input.handle_event(key('-'));
    assert_eq!(sign_of(&input), "- ");
    assert_eq!(number_of(&input), -2.5);
    input.handle_event(key('-'));
    assert_eq!(number_of(&input), 2.5);
    input.toggle_sign();
    assert_eq!(number_of(&input), -2.5);
    let mut input = FloatInput::new(source_of(f64::INFINITY)).unwrap();
    input.handle_event(key('-'));
    assert_eq!(number_of(&input), f64::NEG_INFINITY);
    input.handle_event(key('-'));
    assert_eq!(number_of(&input), f64::INFINITY);
    let mut input = FloatInput::new(source_of(f64::NAN)).unwrap();
    input.handle_event(key('-'));
    assert!(matches!(input.value(), FloatReading::Nan));
}

#[test]
fn special_values_ignore_digits_and_backspace() {
    let mut input = FloatInput::new(source_of(f64::NEG_INFINITY)).unwrap();
    input.handle_event(key('1'));
    input.handle_event(key('.'));
    input.handle_event(Event::Key(KeyCode::Backspace));
    input.push_digit('4');
    input.remove_digit();
    assert!(matches!(input.value(), FloatReading::Infinity { negative: true }));
    let mut input = FloatInput::new(source_of(f64::NAN)).unwrap();
    input.handle_event(key('1'));
    input.handle_event(key('.'));
    input.handle_event(Event::Key(KeyCode::Backspace));
    assert!(matches!(input.value(), FloatReading::Nan));
}

#[test]
fn float_events_edit_the_number() {
    let mut input = FloatInput::new(source_of(0.0)).unwrap();
    for c in "-3.14".chars() {
        assert_eq!(input.handle_event(key(c)), NumInputResponse::Nothing);
    }
    assert_eq!(number_of(&input), -3.14);
    input.handle_event(Event::Key(KeyCode::Backspace));
    assert_eq!(number_of(&input), -3.1);
    input.handle_event(Event::Key(KeyCode::Up));
    input.handle_event(Event::Key(KeyCode::Down));
    input.handle_event(Event::Key(KeyCode::Other));
    input.handle_event(Event::Mouse);
    input.handle_event(key('e'));
    assert_eq!(number_of(&input), -3.1);
    assert_eq!(input.handle_event(Event::Key(KeyCode::Enter)), NumInputResponse::Submit);
    assert_eq!(input.handle_event(Event::Key(KeyCode::Esc)), NumInputResponse::Cancel);
    assert_eq!(number_of(&input), -3.1);
}

#[test]
fn digit_strings_are_told_apart() {
    assert_eq!(parse_digit_string("0123456789"), Ok("0123456789"));
    assert_eq!(parse_digit_string(""), Ok(""));
    assert_eq!(parse_digit_string("12a"), Err(NewFloatError::ParseError));
    assert_eq!(parse_digit_string("-1"), Err(NewFloatError::ParseError));
    assert_eq!(parse_digit_string("1.0"), Err(NewFloatError::ParseError));
    assert_eq!(parse_digit_string("\u{0661}"), Err(NewFloatError::ParseError));
}
