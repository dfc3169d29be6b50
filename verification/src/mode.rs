//! Terminal modes, and the mouse protocol that they select.
use rio_vt::crosswords::Mode;
use vstd::prelude::*;

verus! {

/// A set of terminal modes, as the bits of `rio_vt`'s `Mode`.
#[derive(Debug, Clone, Copy, PartialEq, Eq, Structural)]
pub struct TermMode {
    pub bits: u32,
}

/// Mouse reports in SGR notation.
pub const SGR_MOUSE: u32 = 0x20;

/// Mouse reports whose coordinates are UTF-8.
pub const UTF8_MOUSE: u32 = 0x4000;

/// The wheel sends cursor keys, and the alternate screen is shown: both bits.
pub const ALTERNATE_SCREEN_SCROLL: u32 = 0x9000;

impl TermMode {
    /// Whether every bit of `flags` is set.
    pub open spec fn has(self, flags: u32) -> bool {
        self.bits & flags == flags
    }

    /// No mode at all.
    pub fn empty() -> (r: TermMode)
        ensures
            r.bits == 0,
    {
        TermMode { bits: 0 }
    }

    /// Whether every bit of `flags` is set.
    pub fn contains(&self, flags: u32) -> (r: bool)
        ensures
            r == self.has(flags),
    {
        mode_contains(self.bits, flags)
    }
}

/// Calls `Mode::contains` on the modes with these bits: true when every bit
/// of `other` is set in `bits`.
#[verifier::external_body]
fn mode_contains(bits: u32, other: u32) -> (r: bool)
    ensures
        r == (bits & other == other),
{
    Mode::from_bits_retain(bits).contains(Mode::from_bits_retain(other))
}

/// The bits of `Mode::SGR_MOUSE`.
#[verifier::external_body]
fn sgr_mouse_bits() -> (r: u32)
    ensures
        r == SGR_MOUSE,
{
    Mode::SGR_MOUSE.bits()
}

/// The bits of `Mode::UTF8_MOUSE`.
#[verifier::external_body]
fn utf8_mouse_bits() -> (r: u32)
    ensures
        r == UTF8_MOUSE,
{
    Mode::UTF8_MOUSE.bits()
}

/// The bits of `Mode::ALTERNATE_SCROLL` and `Mode::ALT_SCREEN` together.
#[verifier::external_body]
fn alternate_screen_scroll_bits() -> (r: u32)
    ensures
        r == ALTERNATE_SCREEN_SCROLL,
{
    (Mode::ALTERNATE_SCROLL | Mode::ALT_SCREEN).bits()
}

/// How mouse events are reported to the program in the terminal.
#[derive(Debug, Clone, Copy, PartialEq, Eq, Structural)]
pub enum MouseMode {
    /// SGR notation: decimal numbers, no limit on coordinates.
    Sgr,
    /// One byte per coordinate, or up to two (UTF-8) if the flag is set.
    Normal(bool),
}

/// The protocol that a set of modes selects: SGR wins over UTF-8, and the
/// plain protocol is what is left.
pub open spec fn mouse_mode(mode: TermMode) -> MouseMode {
    if mode.has(SGR_MOUSE) {
        MouseMode::Sgr
    } else {
        MouseMode::Normal(mode.has(UTF8_MOUSE))
    }
}

impl From<TermMode> for MouseMode {
    fn from(term_mode: TermMode) -> (r: MouseMode) {
        if term_mode.contains(sgr_mouse_bits()) {
            MouseMode::Sgr
        } else if term_mode.contains(utf8_mouse_bits()) {
            MouseMode::Normal(true)
        } else {
            MouseMode::Normal(false)
        }
    }
}

impl vstd::std_specs::convert::FromSpecImpl<TermMode> for MouseMode {
    open spec fn obeys_from_spec() -> bool {
        true
    }

    open spec fn from_spec(term_mode: TermMode) -> MouseMode {
        mouse_mode(term_mode)
    }
}

/// Whether the wheel sends cursor keys instead of scrolling: the alternate
/// screen is shown and alternate scrolling is on.
pub fn wheel_sends_keys(mode: TermMode) -> (r: bool)
    ensures
        r == mode.has(ALTERNATE_SCREEN_SCROLL),
{
    mode.contains(alternate_screen_scroll_bits())
}

} // verus!
