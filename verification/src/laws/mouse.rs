//! Mouse reports, as a program in the terminal reads them.
use crate::decimal::{
    decimal, decimal_is_digits, decimal_reads_back, decimal_value, signed_decimal,
    signed_decimal_reads_back, signed_decimal_value,
};
use crate::mode::{mouse_mode, MouseMode, TermMode};
use crate::mouse::{
    coordinate, held_keys, mouse_report, normal_report, reportable, sgr_report, spells, HeldKeys,
    Modifiers, MouseButton, CTRL, LOGO,
};
use crate::point::Pos;
use vstd::prelude::*;

verus! {

/// The bytes before the first `stop`.
pub open spec fn until(bytes: Seq<u8>, stop: u8) -> Seq<u8>
    decreases bytes.len(),
{
    if bytes.len() == 0 || bytes[0] == stop {
        seq![]
    } else {
        seq![bytes[0]] + until(bytes.drop_first(), stop)
    }
}

/// The bytes behind the first `stop`.
pub open spec fn behind(bytes: Seq<u8>, stop: u8) -> Seq<u8> {
    bytes.skip(until(bytes, stop).len() as int + 1)
}

proof fn until_and_behind(part: Seq<u8>, stop: u8, rest: Seq<u8>)
    requires
        forall|i: int| 0 <= i < part.len() ==> #[trigger] part[i] != stop,
    ensures
        until(part + seq![stop] + rest, stop) == part,
        behind(part + seq![stop] + rest, stop) == rest,
    decreases part.len(),
{
    let all = part + seq![stop] + rest;
    if part.len() == 0 {
        assert(all[0] == stop);
    } else {
        let tail = part.drop_first();
        assert(all[0] == part[0]);
        assert(all.drop_first() =~= tail + seq![stop] + rest);
        assert forall|i: int| 0 <= i < tail.len() implies #[trigger] tail[i] != stop by {
            assert(tail[i] == part[i + 1]);
        }
        until_and_behind(tail, stop, rest);
        assert(seq![part[0]] + tail =~= part);
    }
    assert(all.skip(part.len() as int + 1) =~= rest);
}

/// What the held keys add to the number of a button.
pub open spec fn keys_number(held: HeldKeys) -> int {
    (if held.shift { 4int } else { 0 }) + (if held.alt { 8int } else { 0 }) + (if held.command {
        16int
    } else {
        0
    })
}

/// The three buttons count from zero; moving with a button held adds 32 to its
/// number, and moving without one to the number after the last; the wheel
/// counts from 64; anything else is 99.
pub proof fn buttons_have_their_numbers()
    ensures
        MouseButton::LeftButton.spec_code() == 0,
        MouseButton::MiddleButton.spec_code() == MouseButton::LeftButton.spec_code() + 1,
        MouseButton::RightButton.spec_code() == MouseButton::MiddleButton.spec_code() + 1,
        MouseButton::LeftMove.spec_code() == MouseButton::LeftButton.spec_code() + 32,
        MouseButton::MiddleMove.spec_code() == MouseButton::MiddleButton.spec_code() + 32,
        MouseButton::RightMove.spec_code() == MouseButton::RightButton.spec_code() + 32,
        MouseButton::NoneMove.spec_code() == MouseButton::RightButton.spec_code() + 1 + 32,
        MouseButton::ScrollUp.spec_code() == 64,
        MouseButton::ScrollDown.spec_code() == MouseButton::ScrollUp.spec_code() + 1,
        MouseButton::Other.spec_code() == 99,
{
}

/// Shift adds 4, alt 8 and the command key 16, each whatever else is held.
pub proof fn held_keys_add_their_numbers(held: HeldKeys)
    ensures
        held.spec_mask() == keys_number(held),
{
}

/// A key is held exactly when its bit is set, whatever the other bits are.
pub proof fn keys_are_held_where_their_bits_are_set(modifiers: Modifiers, command: u32)
    ensures
        held_keys(modifiers, command).shift <==> modifiers.bits / 4 % 2 == 1,
        held_keys(modifiers, command).alt <==> modifiers.bits / 256 % 2 == 1,
        held_keys(modifiers, CTRL).command <==> modifiers.bits / 32 % 2 == 1,
        held_keys(modifiers, LOGO).command <==> modifiers.bits / 2048 % 2 == 1,
        held_keys(modifiers, command).command <==> command & !modifiers.bits == 0,
{
    let bits = modifiers.bits;
    assert((bits & command == command) == (command & !bits == 0)) by (bit_vector);
    assert((bits & 0x4 == 0x4) == (bits / 4 % 2 == 1)) by (bit_vector);
    assert((bits & 0x100 == 0x100) == (bits / 256 % 2 == 1)) by (bit_vector);
    assert((bits & 0x20 == 0x20) == (bits / 32 % 2 == 1)) by (bit_vector);
    assert((bits & 0x800 == 0x800) == (bits / 2048 % 2 == 1)) by (bit_vector);
}

/// Reports are in SGR notation exactly when the mode for it is on, and else in
/// UTF-8 exactly when the mode for that is on; no other mode matters.
pub proof fn protocol_follows_two_modes(mode: TermMode)
    ensures
        mouse_mode(mode) is Sgr <==> mode.bits / 32 % 2 == 1,
        mouse_mode(mode) == MouseMode::Normal(true) <==> mode.bits / 32 % 2 == 0 && mode.bits
            / 16384 % 2 == 1,
        mouse_mode(mode) == MouseMode::Normal(false) <==> mode.bits / 32 % 2 == 0 && mode.bits
            / 16384 % 2 == 0,
{
    let bits = mode.bits;
    assert((bits & 0x20 == 0x20) == (bits / 32 % 2 == 1)) by (bit_vector);
    assert((bits & 0x4000 == 0x4000) == (bits / 16384 % 2 == 1)) by (bit_vector);
}

/// A set of modes has two sets of flags together exactly when it has each.
pub proof fn modes_are_had_one_by_one(mode: TermMode, flags: u32, more: u32)
    ensures
        mode.has(flags | more) <==> mode.has(flags) && mode.has(more),
        mode.has(0),
        mode.has(mode.bits),
        flags & !mode.bits != 0 ==> !mode.has(flags),
{
    let bits = mode.bits;
    assert((bits & (flags | more) == flags | more) == (bits & flags == flags && bits & more
        == more)) by (bit_vector);
    assert(bits & 0 == 0) by (bit_vector);
    assert(bits & bits == bits) by (bit_vector);
    assert(flags & !bits != 0 ==> bits & flags != flags) by (bit_vector);
}

/// Decimal notation is digits only, without zeros in front.
pub proof fn decimal_has_no_leading_zero(n: nat)
    ensures
        decimal(n).len() >= 1,
        decimal(n)[0] == 48 ==> n == 0 && decimal(n).len() == 1,
        forall|i: int| 0 <= i < decimal(n).len() ==> 48 <= #[trigger] decimal(n)[i] <= 57,
        decimal_value(decimal(n)) == n,
    decreases n,
{
    decimal_is_digits(n);
    decimal_reads_back(n);
    if n >= 10 {
        decimal_has_no_leading_zero(n / 10);
        assert(decimal(n)[0] == decimal(n / 10)[0]);
    }
}

/// A number that is not negative has no sign; a negative one has a minus sign
/// in front of the number without it.
pub proof fn only_negative_numbers_have_a_sign(i: int)
    ensures
        i >= 0 ==> signed_decimal(i) == decimal(i as nat),
        i < 0 ==> signed_decimal(i)[0] == 45 && signed_decimal(i).skip(1) == decimal((-i) as nat),
        signed_decimal_value(signed_decimal(i)) == i,
{
    signed_decimal_reads_back(i);
    if i < 0 {
        assert(signed_decimal(i).skip(1) =~= decimal((-i) as nat));
    }
}

/// What a report in SGR notation is read as: a number, a column and a row, and
/// whether it is a press. `None` where it is no such report.
pub open spec fn read_sgr(bytes: Seq<u8>) -> Option<(int, int, int, bool)> {
    let fields = bytes.skip(3).drop_last();
    let number = until(fields, 59);
    let column = until(behind(fields, 59), 59);
    let row = behind(behind(fields, 59), 59);
    if bytes.len() >= 4 && bytes[0] == 27 && bytes[1] == 91 && bytes[2] == 60 && (bytes.last()
        == 77 || bytes.last() == 109) {
        Some(
            (
                decimal_value(number),
                decimal_value(column),
                signed_decimal_value(row),
                bytes.last() == 77,
            ),
        )
    } else {
        None
    }
}

/// A report in SGR notation is read as the number, the column and the row from
/// one on, and the press or release that it was made of, whatever the number.
pub proof fn sgr_report_reads_back(point: Pos, button: u8, pressed: bool)
    ensures
        read_sgr(sgr_report(point, button, pressed)) == Some(
            (button as int, point.col + 1, point.row + 1, pressed),
        ),
{
    let bytes = sgr_report(point, button, pressed);
    let number = decimal(button as nat);
    let column = decimal((point.col + 1) as nat);
    let row = signed_decimal(point.row + 1);
    assert(bytes.skip(3).drop_last() =~= number + seq![59u8] + (column + seq![59u8] + row));
    decimal_has_no_leading_zero(button as nat);
    decimal_has_no_leading_zero((point.col + 1) as nat);
    signed_decimal_reads_back(point.row + 1);
    until_and_behind(number, 59, column + seq![59u8] + row);
    until_and_behind(column, 59, row);
}

/// A program that reads a report in SGR notation reads the event: behind
/// `ESC [ <` the number of the button with what the held keys add, the column
/// and the row from one on, with semicolons between, and at the end `M` for a
/// press and `m` for a release, for every button.
pub proof fn sgr_report_tells_the_event(
    button: MouseButton,
    held: HeldKeys,
    point: Pos,
    pressed: bool,
)
    ensures
        ({
            let report = mouse_report(MouseMode::Sgr, button, held, point, pressed);
            let bytes = report->0;
            let fields = bytes.skip(3).drop_last();
            let number = until(fields, 59);
            let column = until(behind(fields, 59), 59);
            let row = behind(behind(fields, 59), 59);
            &&& report is Some
            &&& bytes.len() >= 4
            &&& bytes[0] == 27 && bytes[1] == 91 && bytes[2] == 60
            &&& bytes.last() == if pressed { 77u8 } else { 109u8 }
            &&& decimal_value(number) == button.spec_code() + keys_number(held)
            &&& decimal_value(column) == point.col + 1
            &&& signed_decimal_value(row) == point.row + 1
            &&& number == decimal((button.spec_code() + keys_number(held)) as nat)
            &&& column == decimal((point.col + 1) as nat)
            &&& row == signed_decimal(point.row + 1)
        }),
{
    let code = (button.spec_code() + held.spec_mask()) as u8;
    let bytes = sgr_report(point, code, pressed);
    let number = decimal(code as nat);
    let column = decimal((point.col + 1) as nat);
    let row = signed_decimal(point.row + 1);
    let fields = bytes.skip(3).drop_last();
    assert(fields =~= number + seq![59u8] + (column + seq![59u8] + row));
    decimal_has_no_leading_zero(code as nat);
    decimal_has_no_leading_zero((point.col + 1) as nat);
    signed_decimal_reads_back(point.row + 1);
    until_and_behind(number, 59, column + seq![59u8] + row);
    until_and_behind(column, 59, row);
}

/// The coordinate at the front of some bytes of the plain protocol, and the
/// bytes behind it.
pub open spec fn read_coordinate(bytes: Seq<u8>, is_utf8: bool) -> (int, Seq<u8>) {
    if is_utf8 && bytes[0] >= 128 {
        ((bytes[0] - 0xC0) * 64 + (bytes[1] - 0x80) - 33, bytes.skip(2))
    } else {
        (bytes[0] - 33, bytes.skip(1))
    }
}

/// How many bytes a coordinate takes in the plain protocol.
pub open spec fn coordinate_size(pos: int, is_utf8: bool) -> int {
    if is_utf8 && pos >= 95 {
        2
    } else {
        1
    }
}

proof fn coordinate_reads_back(pos: int, is_utf8: bool, rest: Seq<u8>)
    requires
        0 <= pos < (if is_utf8 { 2015int } else { 223int }),
    ensures
        read_coordinate(coordinate(is_utf8, pos) + rest, is_utf8) == (pos, rest),
        coordinate(is_utf8, pos).len() == coordinate_size(pos, is_utf8),
{
    let all = coordinate(is_utf8, pos) + rest;
    assert(all[0] == coordinate(is_utf8, pos)[0]);
    if is_utf8 && pos >= 95 {
        assert(all[1] == coordinate(is_utf8, pos)[1]);
        assert(all.skip(2) =~= rest);
    } else {
        assert(all.skip(1) =~= rest);
    }
}

/// A report of the plain protocol is read as the number, the column and the row
/// that it was made of, whatever the number, with nothing behind.
pub proof fn plain_report_reads_back(point: Pos, button: u8, is_utf8: bool)
    requires
        button <= 223,
        0 <= point.row < (if is_utf8 { 2015int } else { 223int }),
        point.col < (if is_utf8 { 2015int } else { 223int }),
    ensures
        ({
            let report = normal_report(point, button, is_utf8);
            let (column, rest) = read_coordinate(report->0.skip(4), is_utf8);
            let (row, end) = read_coordinate(rest, is_utf8);
            &&& report is Some
            &&& report->0[0] == 27 && report->0[1] == 91 && report->0[2] == 77
            &&& report->0[3] - 32 == button
            &&& column == point.col
            &&& row == point.row
            &&& end.len() == 0
        }),
{
    let bytes = normal_report(point, button, is_utf8)->0;
    let column = coordinate(is_utf8, point.col as int);
    let row = coordinate(is_utf8, point.row as int);
    assert(bytes.skip(4) =~= column + row);
    coordinate_reads_back(point.col as int, is_utf8, row);
    assert(row + seq![] =~= row);
    coordinate_reads_back(point.row as int, is_utf8, seq![]);
}

/// A program that reads a report of the plain protocol reads the event: behind
/// `ESC [ M` the number of the button with what the held keys add, or of a
/// release the number three with it, then the column and the row, and nothing
/// more.
pub proof fn plain_report_tells_the_event(
    is_utf8: bool,
    button: MouseButton,
    held: HeldKeys,
    point: Pos,
    pressed: bool,
)
    requires
        0 <= point.row < (if is_utf8 { 2015int } else { 223int }),
        point.col < (if is_utf8 { 2015int } else { 223int }),
    ensures
        ({
            let report = mouse_report(MouseMode::Normal(is_utf8), button, held, point, pressed);
            let bytes = report->0;
            let (column, rest) = read_coordinate(bytes.skip(4), is_utf8);
            let (row, end) = read_coordinate(rest, is_utf8);
            &&& report is Some
            &&& bytes[0] == 27 && bytes[1] == 91 && bytes[2] == 77
            &&& bytes[3] - 32 == (if pressed { button.spec_code() as int } else { 3 })
                + keys_number(held)
            &&& column == point.col
            &&& row == point.row
            &&& end.len() == 0
            &&& bytes.len() == 4 + coordinate_size(point.col as int, is_utf8) + coordinate_size(
                point.row as int,
                is_utf8,
            )
        }),
{
    let bytes = mouse_report(MouseMode::Normal(is_utf8), button, held, point, pressed)->0;
    let column = coordinate(is_utf8, point.col as int);
    let row = coordinate(is_utf8, point.row as int);
    assert(bytes.skip(4) =~= column + row);
    coordinate_reads_back(point.col as int, is_utf8, row);
    assert(row + seq![] =~= row);
    coordinate_reads_back(point.row as int, is_utf8, seq![]);
}

/// Of a row above the screen the last byte of a report of the plain protocol
/// tells the low byte; the rest is the report of any other row.
pub proof fn plain_report_above_the_screen(
    is_utf8: bool,
    button: MouseButton,
    held: HeldKeys,
    point: Pos,
    other: Pos,
    pressed: bool,
)
    requires
        point.row < 0,
        point.row % 256 <= 222,
        other.col == point.col,
        point.col < (if is_utf8 { 2015int } else { 223int }),
        0 <= other.row < 95,
    ensures
        ({
            let report = mouse_report(MouseMode::Normal(is_utf8), button, held, point, pressed);
            let below = mouse_report(MouseMode::Normal(is_utf8), button, held, other, pressed);
            &&& report is Some
            &&& below is Some
            &&& report->0.last() == 33 + point.row % 256
            &&& report->0.drop_last() == below->0.drop_last()
        }),
{
    let report = mouse_report(MouseMode::Normal(is_utf8), button, held, point, pressed)->0;
    let below = mouse_report(MouseMode::Normal(is_utf8), button, held, other, pressed)->0;
    assert(report.drop_last() =~= below.drop_last());
}

/// In SGR notation there is always a report; in the plain protocol there is
/// none exactly where a coordinate is 223 or more, or with UTF-8 2015 or more.
/// Which button it is, what is held and whether it is a press does not matter.
pub proof fn reports_end_at_their_limits(
    mode: MouseMode,
    button: MouseButton,
    held: HeldKeys,
    point: Pos,
    pressed: bool,
)
    ensures
        mode is Sgr ==> mouse_report(mode, button, held, point, pressed) is Some,
        mode == MouseMode::Normal(false) ==> (mouse_report(
            mode,
            button,
            held,
            point,
            pressed,
        ) is None <==> point.row >= 223 || point.col >= 223),
        mode == MouseMode::Normal(true) ==> (mouse_report(
            mode,
            button,
            held,
            point,
            pressed,
        ) is None <==> point.row >= 2015 || point.col >= 2015),
{
}

/// Every cell of the screen can be reported in every protocol. Above the
/// screen only a row whose low byte is above 222 cannot, and only in the plain
/// protocol and where there would be a report; in SGR notation only the
/// largest numbers cannot.
pub proof fn what_can_be_reported(point: Pos)
    ensures
        reportable(MouseMode::Sgr, point) <==> point.col < usize::MAX && point.row < i32::MAX,
        reportable(MouseMode::Normal(false), point) <==> point.row >= 0 || point.row % 256 <= 222
            || point.col >= 223,
        reportable(MouseMode::Normal(true), point) <==> point.row >= 0 || point.row % 256 <= 222
            || point.col >= 2015,
{
}

/// Bytes that spell a report are its bytes, and are there exactly when there is
/// a report.
pub proof fn spelling_is_exact(msg: Option<Vec<u8>>, report: Option<Seq<u8>>)
    requires
        spells(msg, report),
    ensures
        msg is Some <==> report is Some,
        msg is Some ==> msg->0@ == report->0,
{
}

/// Above the screen, too, a report of the plain protocol carries the number and
/// the column as they are, and of the row the low byte; it is there exactly
/// when the coordinates are below the limit.
pub proof fn plain_report_carries_the_number(point: Pos, button: u8, is_utf8: bool)
    requires
        button <= 223,
    ensures
        normal_report(point, button, is_utf8) is None <==> point.row >= (if is_utf8 {
            2015int
        } else {
            223int
        }) || point.col >= (if is_utf8 { 2015int } else { 223int }),
        normal_report(point, button, is_utf8) matches Some(bytes) ==> {
            &&& bytes[0] == 27 && bytes[1] == 91 && bytes[2] == 77
            &&& bytes[3] == 32 + button
            &&& read_coordinate(bytes.skip(4), is_utf8).0 == point.col
            &&& point.row < 0 && point.row % 256 <= 222 ==> bytes.last() == 33 + point.row % 256
                && bytes.len() == 5 + coordinate_size(point.col as int, is_utf8)
        },
{
    if let Some(bytes) = normal_report(point, button, is_utf8) {
        let row = coordinate(is_utf8, point.row as int);
        assert(bytes.skip(4) =~= coordinate(is_utf8, point.col as int) + row);
        coordinate_reads_back(point.col as int, is_utf8, row);
    }
}

} // verus!
