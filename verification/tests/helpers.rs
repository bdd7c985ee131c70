use tui_components::components::num_input::bounded::{clamp, one, ten, zero, InputInt, InputSignedInt};
use tui_components::components::num_input::decimal::{signed_text, unsigned_text};
use tui_components::components::num_input::text::{
    find_char, is_ascii_digit, is_digit_string, to_digit, trim_leading_zeros,
};
use tui_components::run_loop::{RunLoop, TermEvent};
use tui_components::{AppResponse, Event, KeyCode};

#[test]
fn decimal_text_of_unsigned() {
    assert_eq!(unsigned_text(0), "0");
    assert_eq!(unsigned_text(7), "7");
    assert_eq!(unsigned_text(10), "10");
    assert_eq!(unsigned_text(1005), "1005");
    assert_eq!(unsigned_text(u128::MAX), u128::MAX.to_string());
}

#[test]
fn decimal_text_of_signed() {
    assert_eq!(signed_text(0), "0");
    assert_eq!(signed_text(-1), "-1");
    assert_eq!(signed_text(-120), "-120");
    assert_eq!(signed_text(98765), "98765");
    assert_eq!(signed_text(i128::MIN), i128::MIN.to_string());
    assert_eq!(signed_text(i128::MAX), i128::MAX.to_string());
}

#[test]
fn digits_are_recognised() {
    for c in '0'..='9' {
        assert!(is_ascii_digit(c));
        assert_eq!(to_digit(c), c.to_digit(10));
    }
    for c in ['/', ':', 'a', '-', '.', ' ', '\u{0660}', '\u{ff11}'] {
        assert!(!is_ascii_digit(c));
        assert_eq!(to_digit(c), None);
    }
    assert_eq!(to_digit('0'), Some(0));
    assert_eq!(to_digit('9'), Some(9));
}

#[test]
fn digit_strings_are_recognised() {
    assert!(is_digit_string(""));
    assert!(is_digit_string("0042"));
    assert!(!is_digit_string("4 2"));
    assert!(!is_digit_string("42x"));
}

#[test]
fn leading_zeros_are_trimmed() {
    assert_eq!(trim_leading_zeros("007"), "7");
    assert_eq!(trim_leading_zeros("700"), "700");
    assert_eq!(trim_leading_zeros("000"), "");
    assert_eq!(trim_leading_zeros(""), "");
    assert_eq!(trim_leading_zeros("0a0"), "a0");
}

#[test]
fn the_first_occurrence_is_found() {
    assert_eq!(find_char("1.2.3", '.'), Some(1));
    assert_eq!(find_char(".5", '.'), Some(0));
    assert_eq!(find_char("5.", '.'), Some(1));
    assert_eq!(find_char("125", '.'), None);
    assert_eq!(find_char("", '.'), None);
    assert_eq!(find_char("é.", '.'), Some(1));
}

#[test]
fn small_constants() {
    assert_eq!(zero::<i8>(), 0);
    assert_eq!(one::<u64>(), 1);
    assert_eq!(ten::<i128>(), 10);
    assert_eq!(clamp(5u8, 10, 20), 10);
    assert_eq!(clamp(25u8, 10, 20), 20);
    assert_eq!(clamp(15u8, 10, 20), 15);
    assert_eq!(clamp(-5i32, -5, -5), -5);
}

#[test]
fn construction_from_small_integers() {
    assert_eq!(<i8 as InputInt>::from_u32(127), Some(127));
    assert_eq!(<i8 as InputInt>::from_u32(128), None);
    assert_eq!(<u8 as InputInt>::from_u32(255), Some(255));
    assert_eq!(<u8 as InputInt>::from_u32(256), None);
    assert_eq!(<i16 as InputInt>::from_u32(32767), Some(32767));
    assert_eq!(<i16 as InputInt>::from_u32(32768), None);
    assert_eq!(<u16 as InputInt>::from_u32(65535), Some(65535));
    assert_eq!(<u16 as InputInt>::from_u32(65536), None);
    assert_eq!(<i32 as InputInt>::from_u32(0x7fff_ffff), Some(i32::MAX));
    assert_eq!(<i32 as InputInt>::from_u32(0x8000_0000), None);
    assert_eq!(<u32 as InputInt>::from_u32(u32::MAX), Some(u32::MAX));
    assert_eq!(<i64 as InputInt>::from_u32(u32::MAX), Some(4294967295));
    assert_eq!(<u64 as InputInt>::from_u32(u32::MAX), Some(4294967295));
    assert_eq!(<i128 as InputInt>::from_u32(u32::MAX), Some(4294967295));
    assert_eq!(<u128 as InputInt>::from_u32(u32::MAX), Some(4294967295));
    assert_eq!(<usize as InputInt>::from_u32(70000), Some(70000));
    assert_eq!(<isize as InputInt>::from_u32(70000), Some(70000));
}

#[test]
fn saturating_operations_of_signed_types() {
    assert_eq!(InputInt::saturating_add(&100i8, &100), 127);
    assert_eq!(InputInt::saturating_add(&-100i8, &-100), -128);
    assert_eq!(InputInt::saturating_add(&-100i8, &100), 0);
    assert_eq!(InputInt::saturating_sub(&-100i8, &100), -128);
    assert_eq!(InputInt::saturating_sub(&100i8, &-100), 127);
    assert_eq!(InputInt::saturating_sub(&0i8, &i8::MIN), 127);
    assert_eq!(InputInt::saturating_mul(&-64i8, &2), -128);
    assert_eq!(InputInt::saturating_mul(&-64i8, &-2), 127);
    assert_eq!(InputInt::saturating_mul(&64i8, &-3), -128);
    assert_eq!(InputInt::saturating_mul(&64i8, &3), 127);
    assert_eq!(InputInt::saturating_mul(&-7i8, &6), -42);
    assert_eq!(InputInt::saturating_add(&i64::MAX, &1), i64::MAX);
    assert_eq!(InputInt::saturating_sub(&i64::MIN, &1), i64::MIN);
    assert_eq!(InputInt::saturating_mul(&i128::MIN, &-1), i128::MAX);
    assert_eq!(InputInt::saturating_mul(&isize::MAX, &2), isize::MAX);
    assert_eq!(InputInt::saturating_mul(&i16::MIN, &i16::MIN), i16::MAX);
    assert_eq!(InputInt::saturating_mul(&i32::MAX, &i32::MIN), i32::MIN);
}

#[test]
fn saturating_operations_of_unsigned_types() {
    assert_eq!(InputInt::saturating_add(&200u8, &100), 255);
    assert_eq!(InputInt::saturating_sub(&100u8, &200), 0);
    assert_eq!(InputInt::saturating_mul(&100u8, &3), 255);
    assert_eq!(InputInt::saturating_mul(&25u8, &10), 250);
    assert_eq!(InputInt::saturating_mul(&u64::MAX, &2), u64::MAX);
    assert_eq!(InputInt::saturating_add(&u128::MAX, &1), u128::MAX);
    assert_eq!(InputInt::saturating_sub(&0usize, &1), 0);
    assert_eq!(InputInt::saturating_mul(&u16::MAX, &u16::MAX), u16::MAX);
    assert_eq!(InputInt::saturating_add(&u32::MAX, &u32::MAX), u32::MAX);
}

#[test]
fn capabilities_of_the_widths() {
    assert_eq!(<i8 as InputInt>::min_value(), i8::MIN);
    assert_eq!(<i8 as InputInt>::max_value(), i8::MAX);
    assert_eq!(<u8 as InputInt>::min_value(), 0);
    assert_eq!(<u128 as InputInt>::max_value(), u128::MAX);
    assert_eq!(<isize as InputInt>::min_value(), isize::MIN);
    assert_eq!(InputInt::quotient(&-15i32, &10), -1);
    assert_eq!(InputInt::quotient(&15i32, &10), 1);
    assert_eq!(InputInt::quotient(&i64::MIN, &10), i64::MIN / 10);
    assert_eq!(InputInt::quotient(&255u8, &10), 25);
    assert!(InputInt::less_than(&-1i16, &0));
    assert!(!InputInt::less_than(&3u64, &3));
    assert!(InputInt::equals(&3u64, &3));
    assert!(!InputInt::equals(&-3i128, &3));
    assert!(InputSignedInt::is_negative(&-1i8));
    assert!(!InputSignedInt::is_negative(&0i8));
    assert_eq!(InputInt::to_text(&-128i8), "-128");
    assert_eq!(InputInt::to_text(&u64::MAX), "18446744073709551615");
    assert_eq!(InputInt::to_text(&0usize), "0");
}

#[test]
fn the_loop_draws_first_and_after_every_terminal_event() {
    let mut state = RunLoop::new();
    assert!(state.take_refresh());
    assert!(!state.take_refresh());
    assert_eq!(state.on_poll(None), None);
    assert!(!state.take_refresh());
    assert_eq!(state.on_poll(Some(TermEvent::Resize)), None);
    assert!(state.take_refresh());
    assert_eq!(state.on_poll(Some(TermEvent::Mouse)), Some(Event::Mouse));
    assert!(state.take_refresh());
    assert_eq!(
        state.on_poll(Some(TermEvent::Key(KeyCode::Char('q')))),
        Some(Event::Key(KeyCode::Char('q')))
    );
    assert_eq!(state.on_poll(None), None);
    assert!(state.take_refresh());
    assert!(!state.take_refresh());
}

#[test]
fn only_exit_stops_the_loop() {
    assert!(RunLoop::should_stop(AppResponse::Exit));
    assert!(!RunLoop::should_stop(AppResponse::Nothing));
}
