//! Mouse buttons, modifier keys, and the reports made of them.
use crate::decimal::{
    decimal, decimal_is_digits, decimal_reads_back, push_decimal, push_signed_decimal,
    signed_decimal, signed_decimal_reads_back,
};
use crate::mode::{mouse_mode, MouseMode, TermMode};
use crate::point::Pos;
use iced_core::keyboard::Modifiers as KeyboardModifiers;
use vstd::prelude::*;

verus! {

/// What the mouse did.
#[derive(Debug, Clone, Copy, PartialEq, Eq, Structural)]
pub enum MouseButton {
    LeftButton,
    MiddleButton,
    RightButton,
    LeftMove,
    MiddleMove,
    RightMove,
    NoneMove,
    ScrollUp,
    ScrollDown,
    Other,
}

impl MouseButton {
    /// The number that stands for this button in a report.
    pub open spec fn spec_code(self) -> u8 {
        match self {
            MouseButton::LeftButton => 0,
            MouseButton::MiddleButton => 1,
            MouseButton::RightButton => 2,
            MouseButton::LeftMove => 32,
            MouseButton::MiddleMove => 33,
            MouseButton::RightMove => 34,
            MouseButton::NoneMove => 35,
            MouseButton::ScrollUp => 64,
            MouseButton::ScrollDown => 65,
            MouseButton::Other => 99,
        }
    }

    /// The number that stands for this button in a report.
    pub fn code(&self) -> (r: u8)
        ensures
            r == self.spec_code(),
    {
        match self {
            MouseButton::LeftButton => 0,
            MouseButton::MiddleButton => 1,
            MouseButton::RightButton => 2,
            MouseButton::LeftMove => 32,
            MouseButton::MiddleMove => 33,
            MouseButton::RightMove => 34,
            MouseButton::NoneMove => 35,
            MouseButton::ScrollUp => 64,
            MouseButton::ScrollDown => 65,
            MouseButton::Other => 99,
        }
    }
}

/// A set of modifier keys, as the bits of `iced_core`'s `Modifiers`.
#[derive(Debug, Clone, Copy, PartialEq, Eq, Structural)]
pub struct Modifiers {
    pub bits: u32,
}

/// The bit of the shift key.
pub const SHIFT: u32 = 0x4;

/// The bit of the control key.
pub const CTRL: u32 = 0x20;

/// The bit of the alt key.
pub const ALT: u32 = 0x100;

/// The bit of the logo key.
pub const LOGO: u32 = 0x800;

/// Calls `Modifiers::contains` on the modifiers with these bits: true when
/// every bit of `other` is set in `bits`.
#[verifier::external_body]
fn modifiers_contain(bits: u32, other: u32) -> (r: bool)
    ensures
        r == (bits & other == other),
{
    KeyboardModifiers::from_bits_retain(bits).contains(KeyboardModifiers::from_bits_retain(other))
}

/// The bits of `Modifiers::SHIFT`.
#[verifier::external_body]
fn shift_bits() -> (r: u32)
    ensures
        r == SHIFT,
{
    KeyboardModifiers::SHIFT.bits()
}

/// The bits of `Modifiers::ALT`.
#[verifier::external_body]
fn alt_bits() -> (r: u32)
    ensures
        r == ALT,
{
    KeyboardModifiers::ALT.bits()
}

/// The bits of `Modifiers::COMMAND`: the logo key on macOS, the control key
/// elsewhere. Which of the two it is depends on the machine and is not said.
#[verifier::external_body]
fn command_bits() -> (r: u32)
    ensures
        r == CTRL || r == LOGO,
{
    KeyboardModifiers::COMMAND.bits()
}

/// The modifier keys that a report can carry.
#[derive(Debug, Clone, Copy, PartialEq, Eq, Structural)]
pub struct HeldKeys {
    pub shift: bool,
    pub alt: bool,
    pub command: bool,
}

impl HeldKeys {
    /// What the held keys add to the button's number.
    pub open spec fn spec_mask(self) -> u8 {
        ((if self.shift { 4int } else { 0 }) + (if self.alt { 8int } else { 0 }) + (if self.command {
            16int
        } else {
            0
        })) as u8
    }

    /// What the held keys add to the button's number.
    pub fn mask(&self) -> (r: u8)
        ensures
            r == self.spec_mask(),
            r <= 28,
    {
        let mut mods: u8 = 0;
        if self.shift {
            mods += 4;
        }
        if self.alt {
            mods += 8;
        }
        if self.command {
            mods += 16;
        }
        mods
    }
}

/// The keys held in `modifiers`, where `command` is the bit of the command
/// key.
pub open spec fn held_keys(modifiers: Modifiers, command: u32) -> HeldKeys {
    HeldKeys {
        shift: modifiers.bits & SHIFT == SHIFT,
        alt: modifiers.bits & ALT == ALT,
        command: modifiers.bits & command == command,
    }
}

impl Modifiers {
    /// The held keys, where `command` is the bit of the command key.
    pub fn held_with(&self, command: u32) -> (r: HeldKeys)
        ensures
            r == held_keys(*self, command),
    {
        HeldKeys {
            shift: modifiers_contain(self.bits, shift_bits()),
            alt: modifiers_contain(self.bits, alt_bits()),
            command: modifiers_contain(self.bits, command),
        }
    }

    /// The held keys. The command key is the logo key or the control key,
    /// depending on the machine.
    pub fn held(&self) -> (r: HeldKeys)
        ensures
            r == held_keys(*self, CTRL) || r == held_keys(*self, LOGO),
    {
        self.held_with(command_bits())
    }
}

/// A report in SGR notation: `ESC [ < button ; column ; row M`, or a final
/// `m` for a release. Columns and rows count from one.
pub open spec fn sgr_report(point: Pos, button: u8, pressed: bool) -> Seq<u8> {
    seq![0x1bu8, 91u8, 60u8] + decimal(button as nat) + seq![59u8]
        + decimal((point.col + 1) as nat) + seq![59u8]
        + signed_decimal(point.row + 1) + seq![if pressed { 77u8 } else { 109u8 }]
}

/// The report in SGR notation.
pub fn sgr_mouse_report(point: Pos, button: u8, pressed: bool) -> (msg: Vec<u8>)
    requires
        point.col < usize::MAX,
        point.row < i32::MAX,
    ensures
        msg@ == sgr_report(point, button, pressed),
{
    let mut msg: Vec<u8> = vec![0x1b, 91, 60];
    push_decimal(&mut msg, button as u64);
    msg.push(59);
    push_decimal(&mut msg, (point.col + 1) as u64);
    msg.push(59);
    push_signed_decimal(&mut msg, (point.row + 1) as i64);
    msg.push(if pressed { 77 } else { 109 });
    assert(msg@ =~= sgr_report(point, button, pressed));
    msg
}

/// The first coordinate that the plain protocol cannot express.
pub open spec fn coordinate_limit(is_utf8: bool) -> int {
    if is_utf8 {
        2015
    } else {
        223
    }
}

/// A coordinate of the plain protocol: the number 33 above it, as one byte,
/// or as two bytes of UTF-8 where that is on and one byte is not enough. Of a
/// row above the screen only the low byte counts.
pub open spec fn coordinate(is_utf8: bool, pos: int) -> Seq<u8> {
    if is_utf8 && pos >= 95 {
        seq![(0xC0 + (33 + pos) / 64) as u8, (0x80 + (33 + pos) % 64) as u8]
    } else {
        seq![(33 + pos % 256) as u8]
    }
}

/// A report of the plain protocol, or none where a coordinate is too large.
pub open spec fn normal_report(point: Pos, button: u8, is_utf8: bool) -> Option<Seq<u8>> {
    if point.row >= coordinate_limit(is_utf8) || point.col >= coordinate_limit(is_utf8) {
        None
    } else {
        Some(
            seq![0x1bu8, 91u8, 77u8, (32 + button) as u8] + coordinate(is_utf8, point.col as int)
                + coordinate(is_utf8, point.row as int),
        )
    }
}

/// Whether the byte for the row fits. It always does on the screen; above it
/// the low byte of the row decides.
pub open spec fn row_fits(row: int) -> bool {
    row < 0 ==> row % 256 <= 222
}

/// Appends the two bytes of a coordinate from 95 on.
fn mouse_pos_encode(msg: &mut Vec<u8>, pos: usize)
    requires
        95 <= pos < 2015,
    ensures
        final(msg)@ == old(msg)@ + coordinate(true, pos as int),
{
    let pos: usize = 32 + 1 + pos;
    assert(pos & 63 == pos % 64) by (bit_vector);
    let first: usize = 0xC0 + pos / 64;
    let second: usize = 0x80 + (pos & 63);
    msg.push(first as u8);
    msg.push(second as u8);
}

/// The report of the plain protocol; none where a coordinate is too large.
pub fn normal_mouse_report(point: Pos, button: u8, is_utf8: bool) -> (msg: Option<Vec<u8>>)
    requires
        button <= 223,
        normal_report(point, button, is_utf8) is Some ==> row_fits(point.row as int),
    ensures
        spells(msg, normal_report(point, button, is_utf8)),
{
    let max_point: i32 = if is_utf8 { 2015 } else { 223 };
    if point.row >= max_point || point.col >= max_point as usize {
        return None;
    }
    let mut msg: Vec<u8> = vec![0x1b, 91, 77, 32 + button];
    if is_utf8 && point.col >= 95 {
        mouse_pos_encode(&mut msg, point.col);
    } else {
        msg.push(32 + 1 + point.col as u8);
    }
    if is_utf8 && point.row >= 95 {
        mouse_pos_encode(&mut msg, point.row as usize);
    } else {
        let row: i32 = point.row;
        let low: u8 = #[verifier::truncate] (row as u8);
        assert(row as u8 == row % 256) by (bit_vector);
        msg.push(32 + 1 + low);
    }
    assert(msg@ =~= normal_report(point, button, is_utf8)->0);
    Some(msg)
}

/// Whether a report at `point` can be made at all: the numbers in it fit
/// their types.
pub open spec fn reportable(mouse_mode: MouseMode, point: Pos) -> bool {
    match mouse_mode {
        MouseMode::Sgr => point.col < usize::MAX && point.row < i32::MAX,
        MouseMode::Normal(is_utf8) => normal_report(point, 0, is_utf8) is Some ==> row_fits(
            point.row as int,
        ),
    }
}

/// Whether a report at `point` can be made at all.
pub fn is_reportable(mouse_mode: MouseMode, point: Pos) -> (r: bool)
    ensures
        r == reportable(mouse_mode, point),
{
    match mouse_mode {
        MouseMode::Sgr => point.col < usize::MAX && point.row < i32::MAX,
        MouseMode::Normal(is_utf8) => {
            let max_point: i32 = if is_utf8 { 2015 } else { 223 };
            let row: i32 = point.row;
            let low: u8 = #[verifier::truncate] (row as u8);
            assert(row as u8 == row % 256) by (bit_vector);
            row >= 0 || point.col >= max_point as usize || low <= 222
        },
    }
}

/// The report of a mouse event. In the plain protocol every release is button
/// three.
pub open spec fn mouse_report(
    mouse_mode: MouseMode,
    button: MouseButton,
    held: HeldKeys,
    point: Pos,
    pressed: bool,
) -> Option<Seq<u8>> {
    let code = (button.spec_code() + held.spec_mask()) as u8;
    match mouse_mode {
        MouseMode::Sgr => Some(sgr_report(point, code, pressed)),
        MouseMode::Normal(is_utf8) => normal_report(
            point,
            if pressed {
                code
            } else {
                (3 + held.spec_mask()) as u8
            },
            is_utf8,
        ),
    }
}

/// The report of a mouse event with these keys held; none where the protocol
/// cannot express it.
pub fn encode_mouse_report(
    mouse_mode: MouseMode,
    button: MouseButton,
    held: HeldKeys,
    point: Pos,
    pressed: bool,
) -> (msg: Option<Vec<u8>>)
    requires
        reportable(mouse_mode, point),
    ensures
        spells(msg, mouse_report(mouse_mode, button, held, point, pressed)),
{
    let mods: u8 = held.mask();
    match mouse_mode {
        MouseMode::Sgr => Some(sgr_mouse_report(point, button.code() + mods, pressed)),
        MouseMode::Normal(is_utf8) => {
            if pressed {
                normal_mouse_report(point, button.code() + mods, is_utf8)
            } else {
                normal_mouse_report(point, 3 + mods, is_utf8)
            }
        },
    }
}

/// Whether `msg` holds exactly the bytes of `report`, or neither is there.
pub open spec fn spells(msg: Option<Vec<u8>>, report: Option<Seq<u8>>) -> bool {
    match msg {
        Some(bytes) => report == Some(bytes@),
        None => report is None,
    }
}

/// The report of a mouse event in a terminal with these modes; none where the
/// protocol cannot express it. Which key is the command key depends on the
/// machine.
pub fn process_mouse_report(
    terminal_mode: TermMode,
    button: MouseButton,
    modifiers: Modifiers,
    point: Pos,
    pressed: bool,
) -> (msg: Option<Vec<u8>>)
    requires
        reportable(mouse_mode(terminal_mode), point),
    ensures
        spells(
            msg,
            mouse_report(
                mouse_mode(terminal_mode),
                button,
                held_keys(modifiers, CTRL),
                point,
                pressed,
            ),
        ) || spells(
            msg,
            mouse_report(
                mouse_mode(terminal_mode),
                button,
                held_keys(modifiers, LOGO),
                point,
                pressed,
            ),
        ),
{
    let protocol: MouseMode = MouseMode::from(terminal_mode);
    encode_mouse_report(protocol, button, modifiers.held(), point, pressed)
}

/// In the UTF-8 protocol a coordinate of the screen is the UTF-8 encoding of
/// the character whose number is 33 above it.
pub proof fn utf8_coordinate_is_utf8(pos: u32)
    requires
        pos < coordinate_limit(true),
    ensures
        coordinate(true, pos as int) == vstd::utf8::encode_scalar((33 + pos) as u32),
{
    let scalar: u32 = (33 + pos) as u32;
    if pos < 95 {
        assert((scalar & 0x7F) as u8 == scalar) by (bit_vector)
            requires
                scalar < 128,
        ;
    } else {
        assert((0xC0 | ((scalar >> 6) & 0x1F) as u8) as u8 == 0xC0 + scalar / 64) by (bit_vector)
            requires
                scalar < 0x800,
        ;
        assert((0x80 | (scalar & 0x3F) as u8) as u8 == 0x80 + scalar % 64) by (bit_vector);
    }
    assert(coordinate(true, pos as int) =~= vstd::utf8::encode_scalar(scalar));
}

/// The plain protocol and its UTF-8 variant agree on the coordinates that both
/// write as one byte.
pub proof fn small_coordinates_agree(point: Pos, button: u8)
    requires
        point.col < 95,
        point.row < 95,
    ensures
        normal_report(point, button, false) == normal_report(point, button, true),
{
}

/// The number of a button together with the held keys tells both.
pub proof fn button_number_is_unambiguous(
    button: MouseButton,
    held: HeldKeys,
    other: MouseButton,
    other_held: HeldKeys,
)
    requires
        button.spec_code() + held.spec_mask() == other.spec_code() + other_held.spec_mask(),
    ensures
        button == other,
        held == other_held,
{
}

/// In the plain protocol a release does not say which button was released.
pub proof fn release_is_anonymous(
    is_utf8: bool,
    button: MouseButton,
    other: MouseButton,
    held: HeldKeys,
    point: Pos,
)
    ensures
        mouse_report(MouseMode::Normal(is_utf8), button, held, point, false) == mouse_report(
            MouseMode::Normal(is_utf8),
            other,
            held,
            point,
            false,
        ),
{
}

/// A report exists in SGR notation for every event, and in the plain protocol
/// exactly for those whose coordinates are below the limit.
pub proof fn report_exists_within_limits(
    mode: MouseMode,
    button: MouseButton,
    held: HeldKeys,
    point: Pos,
    pressed: bool,
)
    ensures
        mouse_report(mode, button, held, point, pressed) is Some <==> match mode {
            MouseMode::Sgr => true,
            MouseMode::Normal(is_utf8) => point.row < coordinate_limit(is_utf8) && point.col
                < coordinate_limit(is_utf8),
        },
{
}

/// Where two byte strings agree that begin with a coordinate, the coordinates
/// are equal, and so is what follows.
proof fn leading_coordinates_agree(is_utf8: bool, p: int, q: int, x: Seq<u8>, y: Seq<u8>)
    requires
        0 <= p < coordinate_limit(is_utf8),
        0 <= q < coordinate_limit(is_utf8),
        coordinate(is_utf8, p) + x == coordinate(is_utf8, q) + y,
    ensures
        p == q,
        x == y,
{
    let left = coordinate(is_utf8, p) + x;
    let right = coordinate(is_utf8, q) + y;
    assert(left[0] == coordinate(is_utf8, p)[0]);
    assert(right[0] == coordinate(is_utf8, q)[0]);
    if is_utf8 && p >= 95 && q >= 95 {
        assert(left[1] == coordinate(is_utf8, p)[1]);
        assert(right[1] == coordinate(is_utf8, q)[1]);
    }
    assert(left.skip(coordinate(is_utf8, p).len() as int) =~= x);
    assert(right.skip(coordinate(is_utf8, q).len() as int) =~= y);
}

/// Equal reports of the plain protocol on the screen are reports of the same
/// button number at the same place.
pub proof fn normal_report_is_unambiguous(
    is_utf8: bool,
    a: Pos,
    b: Pos,
    a_button: u8,
    b_button: u8,
)
    requires
        a_button <= 223,
        b_button <= 223,
        a.row >= 0,
        b.row >= 0,
        normal_report(a, a_button, is_utf8) is Some,
        normal_report(a, a_button, is_utf8) == normal_report(b, b_button, is_utf8),
    ensures
        a == b,
        a_button == b_button,
{
    let x = normal_report(a, a_button, is_utf8)->0;
    let y = normal_report(b, b_button, is_utf8)->0;
    let (ac, bc) = (coordinate(is_utf8, a.col as int), coordinate(is_utf8, b.col as int));
    let (ar, br) = (coordinate(is_utf8, a.row as int), coordinate(is_utf8, b.row as int));
    assert(x[3] == (32 + a_button) as u8 && y[3] == (32 + b_button) as u8);
    assert(x.skip(4) =~= ac + ar);
    assert(y.skip(4) =~= bc + br);
    leading_coordinates_agree(is_utf8, a.col as int, b.col as int, ar, br);
    assert(ar + seq![] =~= ar && br + seq![] =~= br);
    leading_coordinates_agree(is_utf8, a.row as int, b.row as int, seq![], seq![]);
}

/// Where two byte strings agree that have the same separator behind parts
/// without it, these parts are equal, and so is what follows.
proof fn separated_parts_agree(a: Seq<u8>, b: Seq<u8>, x: Seq<u8>, y: Seq<u8>, separator: u8)
    requires
        forall|i: int| 0 <= i < a.len() ==> #[trigger] a[i] != separator,
        forall|i: int| 0 <= i < b.len() ==> #[trigger] b[i] != separator,
        a + seq![separator] + x == b + seq![separator] + y,
    ensures
        a == b,
        x == y,
{
    let left = a + seq![separator] + x;
    let right = b + seq![separator] + y;
    assert(left[a.len() as int] == separator);
    assert(right[b.len() as int] == separator);
    if a.len() < b.len() {
        assert(right[a.len() as int] == b[a.len() as int]);
    }
    if b.len() < a.len() {
        assert(left[b.len() as int] == a[b.len() as int]);
    }
    assert(a =~= b) by {
        assert forall|i: int| 0 <= i < a.len() implies a[i] == b[i] by {
            assert(left[i] == a[i] && right[i] == b[i]);
        }
    }
    assert(left.len() == a.len() + 1 + x.len());
    assert(right.len() == b.len() + 1 + y.len());
    assert(x =~= y) by {
        assert forall|i: int| 0 <= i < x.len() implies x[i] == y[i] by {
            assert(left[a.len() + 1 + i] == x[i] && right[b.len() + 1 + i] == y[i]);
        }
    }
}

spec fn sgr_report_tail(point: Pos, pressed: bool) -> Seq<u8> {
    signed_decimal(point.row + 1) + seq![if pressed { 77u8 } else { 109u8 }]
}

proof fn sgr_report_parts(point: Pos, button: u8, pressed: bool)
    ensures
        sgr_report(point, button, pressed).skip(3) == decimal(button as nat) + seq![59u8] + (
        decimal((point.col + 1) as nat) + seq![59u8] + sgr_report_tail(point, pressed)),
{
    assert(sgr_report(point, button, pressed).skip(3) =~= decimal(button as nat) + seq![59u8] + (
    decimal((point.col + 1) as nat) + seq![59u8] + sgr_report_tail(point, pressed)));
}

/// Equal reports in SGR notation are reports of the same event: button number,
/// place, and whether it was a press.
pub proof fn sgr_report_is_unambiguous(
    a: Pos,
    b: Pos,
    a_button: u8,
    b_button: u8,
    a_pressed: bool,
    b_pressed: bool,
)
    requires
        sgr_report(a, a_button, a_pressed) == sgr_report(b, b_button, b_pressed),
    ensures
        a == b,
        a_button == b_button,
        a_pressed == b_pressed,
{
    let (an, bn) = (decimal(a_button as nat), decimal(b_button as nat));
    let (ac, bc) = (decimal((a.col + 1) as nat), decimal((b.col + 1) as nat));
    decimal_is_digits(a_button as nat);
    decimal_is_digits(b_button as nat);
    decimal_is_digits((a.col + 1) as nat);
    decimal_is_digits((b.col + 1) as nat);
    let (ax, bx) = (sgr_report_tail(a, a_pressed), sgr_report_tail(b, b_pressed));
    sgr_report_parts(a, a_button, a_pressed);
    sgr_report_parts(b, b_button, b_pressed);
    separated_parts_agree(an, bn, ac + seq![59u8] + ax, bc + seq![59u8] + bx, 59);
    separated_parts_agree(ac, bc, ax, bx, 59);
    assert(ax.drop_last() =~= signed_decimal(a.row + 1));
    assert(bx.drop_last() =~= signed_decimal(b.row + 1));
    assert(ax.last() == if a_pressed { 77u8 } else { 109u8 });
    assert(bx.last() == if b_pressed { 77u8 } else { 109u8 });
    decimal_reads_back(a_button as nat);
    decimal_reads_back(b_button as nat);
    decimal_reads_back((a.col + 1) as nat);
    decimal_reads_back((b.col + 1) as nat);
    signed_decimal_reads_back(a.row + 1);
    signed_decimal_reads_back(b.row + 1);
}

} // verus!
