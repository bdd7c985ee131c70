use tui_components::components::num_input::{NumInputResponse, UnsignedIntInput};
use tui_components::span_builder::{Spans, Style};
use tui_components::{Event, KeyCode, Spannable};

fn fragments(spans: Spans) -> Vec<(String, Style)> {
    spans.0.into_iter().map(|span| (span.content, span.style)).collect()
}

#[test]
fn nines_saturate_an_eight_bit_input() {
    let mut input = UnsignedIntInput::<u8>::new(250);
    for _ in 0..3 {
        assert!(input.append_digit('9'));
        assert_eq!(input.value(), 255);
    }
    assert_eq!(
        fragments(input.get_spans()),
        vec![
            ("> ".to_string(), Style::Accent),
            ("255".to_string(), Style::Plain),
            (" (max value)".to_string(), Style::Muted),
        ]
    );
}

#[test]
fn digits_build_the_value() {
    let mut input = UnsignedIntInput::<u32>::new(0);
    for c in "40961".chars() {
        assert!(input.append_digit(c));
    }
    assert!(!input.append_digit('-'));
    assert!(!input.append_digit('x'));
    assert_eq!(input.value(), 40961);
    assert_eq!(
        fragments(input.get_spans()),
        vec![("> ".to_string(), Style::Accent), ("40961".to_string(), Style::Plain)]
    );
}

#[test]
fn zero_is_marked_as_the_minimum() {
    let input = UnsignedIntInput::<u16>::new(0);
    assert_eq!(
        fragments(input.get_spans()),
        vec![
            ("> ".to_string(), Style::Accent),
            ("0".to_string(), Style::Plain),
            (" (min value)".to_string(), Style::Muted),
        ]
    );
}

#[test]
fn unsigned_arithmetic_saturates() {
    let mut input = UnsignedIntInput::<u8>::new(10);
    input.sub(11);
    assert_eq!(input.value(), 0);
    input.add(200).add(100);
    assert_eq!(input.value(), 255);
    input.set(16);
    input.multiply(16);
    assert_eq!(input.value(), 255);
    input.set(15);
    input.multiply(17);
    assert_eq!(input.value(), 255);
    input.set(12);
    input.multiply(3).sub(1);
    assert_eq!(input.value(), 35);
}

#[test]
fn unsigned_remove_digit_divides_by_ten() {
    let mut input = UnsignedIntInput::<u64>::new(9876);
    input.remove_digit();
    assert_eq!(input.value(), 987);
    input.remove_digit();
    input.remove_digit();
    assert_eq!(input.value(), 9);
    input.remove_digit();
    assert_eq!(input.value(), 0);
    input.remove_digit();
    assert_eq!(input.value(), 0);
}

#[test]
fn unsigned_saturation_in_every_width() {
    let mut a = UnsignedIntInput::<u16>::new(6553);
    a.append_digit('6');
    assert_eq!(a.value(), u16::MAX);
    let mut b = UnsignedIntInput::<u32>::new(u32::MAX / 10);
    b.append_digit('5');
    assert_eq!(b.value(), u32::MAX);
    let mut c = UnsignedIntInput::<u64>::new(u64::MAX);
    c.append_digit('0');
    assert_eq!(c.value(), u64::MAX);
    let mut d = UnsignedIntInput::<u128>::new(u128::MAX / 10);
    d.append_digit('5');
    assert_eq!(d.value(), u128::MAX);
    assert_eq!(
        fragments(d.get_spans())[1].0,
        "340282366920938463463374607431768211455"
    );
    let mut e = UnsignedIntInput::<usize>::new(usize::MAX - 1);
    e.append_digit('0');
    assert_eq!(e.value(), usize::MAX);
}

#[test]
fn unsigned_events_edit_the_value() {
    let mut input = UnsignedIntInput::<u8>::new(0);
    assert_eq!(input.handle_event(Event::Key(KeyCode::Down)), NumInputResponse::Nothing);
    assert_eq!(input.value(), 0);
    input.handle_event(Event::Key(KeyCode::Char('2')));
    input.handle_event(Event::Key(KeyCode::Char('5')));
    input.handle_event(Event::Key(KeyCode::Char('-')));
    assert_eq!(input.value(), 25);
    input.handle_event(Event::Key(KeyCode::Up));
    assert_eq!(input.value(), 26);
    input.handle_event(Event::Key(KeyCode::Backspace));
    assert_eq!(input.value(), 2);
    input.handle_event(Event::Mouse);
    input.handle_event(Event::Key(KeyCode::Tab));
    assert_eq!(input.value(), 2);
    assert_eq!(input.handle_event(Event::Key(KeyCode::Enter)), NumInputResponse::Submit);
    assert_eq!(input.handle_event(Event::Key(KeyCode::Esc)), NumInputResponse::Cancel);
    assert_eq!(input.value(), 2);
}
