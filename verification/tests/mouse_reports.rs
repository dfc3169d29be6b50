//! Mouse protocols, modifier keys and reports.
use iced_core::keyboard::Modifiers as KeyboardModifiers;
use rio_vt::crosswords::Mode;
use terminal_backend::decimal::{push_decimal, push_signed_decimal};
use terminal_backend::mode::{
    wheel_sends_keys, MouseMode, TermMode, ALTERNATE_SCREEN_SCROLL, SGR_MOUSE, UTF8_MOUSE,
};
use terminal_backend::mouse::{
    encode_mouse_report, is_reportable, normal_mouse_report, process_mouse_report,
    sgr_mouse_report, HeldKeys, Modifiers, MouseButton, ALT, CTRL, LOGO, SHIFT,
};
use terminal_backend::point::Pos;

const NO_KEYS: HeldKeys = HeldKeys { shift: false, alt: false, command: false };

fn at(row: i32, col: usize) -> Pos {
    Pos { row, col }
}

fn mode(flags: Mode) -> TermMode {
    TermMode { bits: flags.bits() }
}

#[test]
fn mode_bits_are_those_of_the_terminal_core() {
    assert_eq!(SGR_MOUSE, Mode::SGR_MOUSE.bits());
    assert_eq!(UTF8_MOUSE, Mode::UTF8_MOUSE.bits());
    assert_eq!(ALTERNATE_SCREEN_SCROLL, (Mode::ALTERNATE_SCROLL | Mode::ALT_SCREEN).bits());
}

#[test]
fn modifier_bits_are_those_of_the_keyboard() {
    assert_eq!(SHIFT, KeyboardModifiers::SHIFT.bits());
    assert_eq!(ALT, KeyboardModifiers::ALT.bits());
    assert_eq!(CTRL, KeyboardModifiers::CTRL.bits());
    assert_eq!(LOGO, KeyboardModifiers::LOGO.bits());
    let command = KeyboardModifiers::COMMAND.bits();
    assert!(command == CTRL || command == LOGO);
}

#[test]
fn sgr_wins() {
    assert_eq!(MouseMode::from(mode(Mode::SGR_MOUSE)), MouseMode::Sgr);
    assert_eq!(MouseMode::from(mode(Mode::SGR_MOUSE | Mode::UTF8_MOUSE)), MouseMode::Sgr);
}

#[test]
fn utf8_is_next() {
    assert_eq!(MouseMode::from(mode(Mode::UTF8_MOUSE)), MouseMode::Normal(true));
    assert_eq!(MouseMode::from(mode(Mode::empty())), MouseMode::Normal(false));
    assert_eq!(MouseMode::from(TermMode::empty()), MouseMode::Normal(false));
}

#[test]
fn wheel_keys_need_both_modes() {
    assert!(wheel_sends_keys(mode(Mode::ALTERNATE_SCROLL | Mode::ALT_SCREEN)));
    assert!(!wheel_sends_keys(mode(Mode::ALTERNATE_SCROLL)));
    assert!(!wheel_sends_keys(mode(Mode::ALT_SCREEN)));
    assert!(!wheel_sends_keys(TermMode::empty()));
}

#[test]
fn term_mode_contains_every_flag() {
    let both = mode(Mode::SGR_MOUSE | Mode::UTF8_MOUSE);
    assert!(both.contains(SGR_MOUSE));
    assert!(both.contains(SGR_MOUSE | UTF8_MOUSE));
    assert!(!both.contains(SGR_MOUSE | ALTERNATE_SCREEN_SCROLL));
    assert!(both.contains(0));
}

#[test]
fn button_codes() {
    let codes: Vec<u8> = vec![
        MouseButton::LeftButton.code(),
        MouseButton::MiddleButton.code(),
        MouseButton::RightButton.code(),
        MouseButton::LeftMove.code(),
        MouseButton::MiddleMove.code(),
        MouseButton::RightMove.code(),
        MouseButton::NoneMove.code(),
        MouseButton::ScrollUp.code(),
        MouseButton::ScrollDown.code(),
        MouseButton::Other.code(),
    ];
    assert_eq!(codes, vec![0, 1, 2, 32, 33, 34, 35, 64, 65, 99]);
}

#[test]
fn held_keys_are_read_from_the_modifiers() {
    let none = Modifiers { bits: 0 }.held();
    assert_eq!(none, NO_KEYS);
    let shift = Modifiers { bits: KeyboardModifiers::SHIFT.bits() }.held();
    assert_eq!(shift, HeldKeys { shift: true, alt: false, command: false });
    let alt = Modifiers { bits: KeyboardModifiers::ALT.bits() }.held();
    assert_eq!(alt, HeldKeys { shift: false, alt: true, command: false });
    let command = Modifiers { bits: KeyboardModifiers::COMMAND.bits() }.held();
    assert_eq!(command, HeldKeys { shift: false, alt: false, command: true });
}

#[test]
fn masks_add_up() {
    assert_eq!(NO_KEYS.mask(), 0);
    assert_eq!(HeldKeys { shift: true, ..NO_KEYS }.mask(), 4);
    assert_eq!(HeldKeys { alt: true, ..NO_KEYS }.mask(), 8);
    assert_eq!(HeldKeys { command: true, ..NO_KEYS }.mask(), 16);
    assert_eq!(HeldKeys { shift: true, alt: true, command: true }.mask(), 28);
}

#[test]
fn sums_of_button_and_mask_are_distinct() {
    let buttons = [
        MouseButton::LeftButton,
        MouseButton::MiddleButton,
        MouseButton::RightButton,
        MouseButton::LeftMove,
        MouseButton::MiddleMove,
        MouseButton::RightMove,
        MouseButton::NoneMove,
        MouseButton::ScrollUp,
        MouseButton::ScrollDown,
        MouseButton::Other,
    ];
    let mut sums: Vec<u8> = Vec::new();
    for button in buttons {
        for keys in 0..8u8 {
            let held = HeldKeys { shift: keys & 1 > 0, alt: keys & 2 > 0, command: keys & 4 > 0 };
            sums.push(button.code() + held.mask());
        }
    }
    sums.sort();
    sums.dedup();
    assert_eq!(sums.len(), 80);
}

#[test]
fn decimal_numbers_are_spelled_out() {
    let mut text: Vec<u8> = Vec::new();
    push_decimal(&mut text, 0);
    text.push(b' ');
    push_decimal(&mut text, 1_234_567_890);
    text.push(b' ');
    push_decimal(&mut text, u64::MAX);
    text.push(b' ');
    push_signed_decimal(&mut text, -17);
    text.push(b' ');
    push_signed_decimal(&mut text, i64::MIN);
    text.push(b' ');
    push_signed_decimal(&mut text, 42);
    assert_eq!(
        String::from_utf8(text).unwrap(),
        "0 1234567890 18446744073709551615 -17 -9223372036854775808 42"
    );
}

#[test]
fn sgr_press_and_release() {
    assert_eq!(sgr_mouse_report(at(4, 9), 2, true), b"\x1b[<2;10;5M".to_vec());
    assert_eq!(sgr_mouse_report(at(4, 9), 2, false), b"\x1b[<2;10;5m".to_vec());
}

#[test]
fn sgr_rows_may_be_in_the_history() {
    assert_eq!(sgr_mouse_report(at(-1, 0), 0, true), b"\x1b[<0;1;0M".to_vec());
    assert_eq!(sgr_mouse_report(at(-5, 299), 99, true), b"\x1b[<99;300;-4M".to_vec());
}

#[test]
fn plain_report() {
    assert_eq!(
        normal_mouse_report(at(4, 9), 2, false),
        Some(vec![0x1b, b'[', b'M', 34, 42, 37])
    );
}

#[test]
fn plain_report_ends_at_its_limit() {
    assert_eq!(
        normal_mouse_report(at(222, 222), 0, false),
        Some(vec![0x1b, b'[', b'M', 32, 255, 255])
    );
    assert_eq!(normal_mouse_report(at(223, 0), 0, false), None);
    assert_eq!(normal_mouse_report(at(0, 223), 0, false), None);
}

#[test]
fn utf8_report_takes_two_bytes_from_95_on() {
    assert_eq!(
        normal_mouse_report(at(94, 94), 0, true),
        Some(vec![0x1b, b'[', b'M', 32, 127, 127])
    );
    assert_eq!(
        normal_mouse_report(at(95, 95), 0, true),
        Some(vec![0x1b, b'[', b'M', 32, 0xc2, 0x80, 0xc2, 0x80])
    );
    assert_eq!(
        normal_mouse_report(at(2014, 3), 0, true),
        Some(vec![0x1b, b'[', b'M', 32, 36, 0xdf, 0xbf])
    );
    assert_eq!(normal_mouse_report(at(2015, 3), 0, true), None);
    assert_eq!(normal_mouse_report(at(3, 2015), 0, true), None);
}

#[test]
fn utf8_coordinates_are_text() {
    for pos in [0usize, 50, 94, 95, 96, 500, 1000, 2014] {
        let report = normal_mouse_report(at(0, pos), 0, true).unwrap();
        let text = std::str::from_utf8(&report[4..report.len() - 1]).unwrap();
        let mut chars = text.chars();
        assert_eq!(chars.next().map(|c| c as usize), Some(33 + pos));
        assert_eq!(chars.next(), None);
    }
}

#[test]
fn small_coordinates_are_the_same_with_and_without_utf8() {
    for pos in 0..95i32 {
        let point = at(pos, (94 - pos) as usize);
        assert_eq!(
            normal_mouse_report(point, 1, true),
            normal_mouse_report(point, 1, false)
        );
    }
}

#[test]
fn rows_above_the_screen_keep_their_low_byte() {
    assert_eq!(
        normal_mouse_report(at(-200, 0), 0, false),
        Some(vec![0x1b, b'[', b'M', 32, 33, 33 + 56])
    );
}

#[test]
fn some_points_cannot_be_reported() {
    assert!(!is_reportable(MouseMode::Normal(false), at(-1, 0)));
    assert!(is_reportable(MouseMode::Normal(false), at(-200, 0)));
    assert!(is_reportable(MouseMode::Normal(false), at(-1, 223)));
    assert!(is_reportable(MouseMode::Normal(true), at(5000, 0)));
    assert!(!is_reportable(MouseMode::Sgr, at(i32::MAX, 0)));
    assert!(!is_reportable(MouseMode::Sgr, at(0, usize::MAX)));
    assert!(is_reportable(MouseMode::Sgr, at(-1, 0)));
}

#[test]
fn plain_release_is_button_three() {
    let held = HeldKeys { shift: true, ..NO_KEYS };
    let left = encode_mouse_report(
        MouseMode::Normal(false),
        MouseButton::LeftButton,
        held,
        at(1, 2),
        false,
    );
    let right = encode_mouse_report(
        MouseMode::Normal(false),
        MouseButton::RightButton,
        held,
        at(1, 2),
        false,
    );
    assert_eq!(left, Some(vec![0x1b, b'[', b'M', 32 + 3 + 4, 35, 34]));
    assert_eq!(left, right);
}

#[test]
fn plain_press_carries_button_and_keys() {
    let held = HeldKeys { shift: false, alt: true, command: true };
    assert_eq!(
        encode_mouse_report(
            MouseMode::Normal(true),
            MouseButton::ScrollDown,
            held,
            at(0, 0),
            true
        ),
        Some(vec![0x1b, b'[', b'M', 32 + 65 + 24, 33, 33])
    );
}

#[test]
fn sgr_release_keeps_the_button() {
    let left = encode_mouse_report(
        MouseMode::Sgr,
        MouseButton::LeftButton,
        NO_KEYS,
        at(1, 2),
        false,
    );
    let right = encode_mouse_report(
        MouseMode::Sgr,
        MouseButton::RightButton,
        NO_KEYS,
        at(1, 2),
        false,
    );
    assert_eq!(left, Some(b"\x1b[<0;3;2m".to_vec()));
    assert_eq!(right, Some(b"\x1b[<2;3;2m".to_vec()));
}

#[test]
fn report_follows_modes_and_modifiers() {
    let keys = KeyboardModifiers::SHIFT | KeyboardModifiers::COMMAND;
    assert_eq!(
        process_mouse_report(
            mode(Mode::SGR_MOUSE),
            MouseButton::LeftMove,
            Modifiers { bits: keys.bits() },
            at(9, 19),
            true
        ),
        Some(b"\x1b[<52;20;10M".to_vec())
    );
    assert_eq!(
        process_mouse_report(
            mode(Mode::empty()),
            MouseButton::LeftMove,
            Modifiers { bits: keys.bits() },
            at(9, 230),
            true
        ),
        None
    );
    assert_eq!(
        process_mouse_report(
            mode(Mode::UTF8_MOUSE),
            MouseButton::NoneMove,
            Modifiers { bits: 0 },
            at(9, 230),
            true
        ),
        Some(vec![0x1b, b'[', b'M', 67, 0xc4, 0x87, 42])
    );
}

#[test]
fn command_key_is_the_one_that_is_given() {
    let ctrl = Modifiers { bits: KeyboardModifiers::CTRL.bits() };
    assert_eq!(ctrl.held_with(CTRL), HeldKeys { command: true, ..NO_KEYS });
    assert_eq!(ctrl.held_with(LOGO), NO_KEYS);
    let logo = Modifiers { bits: (KeyboardModifiers::LOGO | KeyboardModifiers::ALT).bits() };
    assert_eq!(logo.held_with(CTRL), HeldKeys { alt: true, ..NO_KEYS });
    assert_eq!(logo.held_with(LOGO), HeldKeys { alt: true, command: true, ..NO_KEYS });
    assert_eq!(ctrl.held(), ctrl.held_with(KeyboardModifiers::COMMAND.bits()));
}
