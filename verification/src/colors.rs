//! The colors that a cell is painted in.
use crate::grid::square_bits;
use rio_vt::config::colors::{AnsiColor as OuterColor, NamedColor};
use rio_vt::crosswords::square::{ContentTag as OuterTag, Square};
use rio_vt::crosswords::style::Style;
use vstd::prelude::*;

verus! {

/// A color as an escape sequence can name it.
#[derive(Debug, Clone, Copy, PartialEq, Eq, Structural)]
pub enum AnsiColor {
    /// A color of the theme, by the number of `rio_vt`'s `NamedColor`.
    Named(u16),
    /// Red, green and blue.
    Spec(u8, u8, u8),
    /// An entry of the palette.
    Indexed(u8),
}

/// The number of the theme's foreground color.
pub const FOREGROUND: u16 = 256;

/// The number of the theme's background color.
pub const BACKGROUND: u16 = 257;

/// What the payload of a cell is.
#[derive(Debug, Clone, Copy, PartialEq, Eq, Structural)]
pub enum ContentTag {
    /// Text, with a style from the style table.
    Codepoint,
    /// No text; the background is an entry of the palette.
    BgPalette,
    /// No text; the background is given by its components.
    BgRgb,
}

/// The tag in the packed bits of a cell: bits 30 and 31.
pub open spec fn bits_tag(bits: u64) -> ContentTag {
    if (bits >> 30) & 3 == 0 {
        ContentTag::Codepoint
    } else if (bits >> 30) & 3 == 1 {
        ContentTag::BgPalette
    } else {
        ContentTag::BgRgb
    }
}

/// The style number in the packed bits of a text cell: 16 bits from bit 32 on.
pub open spec fn bits_style_id(bits: u64) -> u16 {
    ((bits >> 32) & 0xffff) as u16
}

/// One byte of the packed bits of a cell, from bit `shift` on.
pub open spec fn bits_byte(bits: u64, shift: u64) -> u8 {
    ((bits >> shift) & 0xff) as u8
}

/// `rio_vt`'s style of a text cell.
#[verifier::external_type_specification]
#[verifier::external_body]
pub struct ExStyle(rio_vt::crosswords::style::Style);

/// The foreground color of a style.
pub uninterp spec fn style_fg(style: Style) -> AnsiColor;

/// The background color of a style.
pub uninterp spec fn style_bg(style: Style) -> AnsiColor;

/// The bits of the flags of a style.
pub uninterp spec fn style_flags(style: Style) -> u16;

/// The field `fg` of a `Style`.
#[verifier::external_body]
fn foreground(style: &Style) -> (r: AnsiColor)
    ensures
        r == style_fg(*style),
{
    match style.fg {
        OuterColor::Named(name) => AnsiColor::Named(name as u16),
        OuterColor::Spec(rgb) => AnsiColor::Spec(rgb.r, rgb.g, rgb.b),
        OuterColor::Indexed(index) => AnsiColor::Indexed(index),
    }
}

/// The field `bg` of a `Style`.
#[verifier::external_body]
fn background(style: &Style) -> (r: AnsiColor)
    ensures
        r == style_bg(*style),
{
    match style.bg {
        OuterColor::Named(name) => AnsiColor::Named(name as u16),
        OuterColor::Spec(rgb) => AnsiColor::Spec(rgb.r, rgb.g, rgb.b),
        OuterColor::Indexed(index) => AnsiColor::Indexed(index),
    }
}

/// The bits of the field `flags` of a `Style`.
#[verifier::external_body]
fn flags(style: &Style) -> (r: u16)
    ensures
        r == style_flags(*style),
{
    style.flags.bits()
}

/// `Style::default`: the colors of the theme, and no flags.
#[verifier::external_body]
fn default_style() -> (r: Style)
    ensures
        style_fg(r) == AnsiColor::Named(FOREGROUND),
        style_bg(r) == AnsiColor::Named(BACKGROUND),
        style_flags(r) == 0,
{
    Style::default()
}

/// The number of `NamedColor::Foreground`.
#[verifier::external_body]
fn foreground_number() -> (r: u16)
    ensures
        r == FOREGROUND,
{
    NamedColor::Foreground as u16
}

/// `Square::content_tag`.
#[verifier::external_body]
fn content_tag(square: Square) -> (r: ContentTag)
    ensures
        r == bits_tag(square_bits(square)),
{
    match square.content_tag() {
        OuterTag::Codepoint => ContentTag::Codepoint,
        OuterTag::BgPalette => ContentTag::BgPalette,
        OuterTag::BgRgb => ContentTag::BgRgb,
    }
}

/// `Square::style_id`.
#[verifier::external_body]
fn style_id(square: Square) -> (r: u16)
    ensures
        r == bits_style_id(square_bits(square)),
{
    square.style_id()
}

/// `Square::bg_palette_index`.
#[verifier::external_body]
fn bg_palette_index(square: Square) -> (r: u8)
    ensures
        r == bits_byte(square_bits(square), 32),
{
    square.bg_palette_index()
}

/// `Square::bg_rgb`.
#[verifier::external_body]
fn bg_rgb(square: Square) -> (r: (u8, u8, u8))
    ensures
        r.0 == bits_byte(square_bits(square), 32),
        r.1 == bits_byte(square_bits(square), 40),
        r.2 == bits_byte(square_bits(square), 48),
{
    square.bg_rgb()
}

/// Foreground, background and flags of every style of a table.
pub open spec fn style_views(styles: Seq<Style>) -> Seq<(AnsiColor, AnsiColor, u16)> {
    styles.map_values(|style: Style| (style_fg(style), style_bg(style), style_flags(style)))
}

/// Foreground, background and flags of a style; those of the default style
/// where there is none.
pub open spec fn style_paint(
    styles: Seq<(AnsiColor, AnsiColor, u16)>,
    id: int,
) -> (AnsiColor, AnsiColor, u16) {
    if 0 <= id < styles.len() {
        styles[id]
    } else {
        (AnsiColor::Named(FOREGROUND), AnsiColor::Named(BACKGROUND), 0)
    }
}

/// Foreground, background and flags of a cell. Text cells look theirs up in
/// the style table; the others carry their background in themselves.
pub open spec fn paint(
    bits: u64,
    styles: Seq<(AnsiColor, AnsiColor, u16)>,
) -> (AnsiColor, AnsiColor, u16) {
    match bits_tag(bits) {
        ContentTag::Codepoint => style_paint(styles, bits_style_id(bits) as int),
        ContentTag::BgPalette => (
            AnsiColor::Named(FOREGROUND),
            AnsiColor::Indexed(bits_byte(bits, 32)),
            0,
        ),
        ContentTag::BgRgb => (
            AnsiColor::Named(FOREGROUND),
            AnsiColor::Spec(bits_byte(bits, 32), bits_byte(bits, 40), bits_byte(bits, 48)),
            0,
        ),
    }
}

/// Foreground, background and style flags of a cell.
pub fn square_colors(square: Square, styles: &[Style]) -> (r: (AnsiColor, AnsiColor, u16))
    ensures
        r == paint(square_bits(square), style_views(styles@)),
{
    match content_tag(square) {
        ContentTag::Codepoint => {
            let id: usize = style_id(square) as usize;
            if id < styles.len() {
                let style: &Style = &styles[id];
                (foreground(style), background(style), flags(style))
            } else {
                let style: Style = default_style();
                (foreground(&style), background(&style), flags(&style))
            }
        },
        ContentTag::BgPalette => (
            AnsiColor::Named(foreground_number()),
            AnsiColor::Indexed(bg_palette_index(square)),
            0,
        ),
        ContentTag::BgRgb => {
            let (r, g, b): (u8, u8, u8) = bg_rgb(square);
            (AnsiColor::Named(foreground_number()), AnsiColor::Spec(r, g, b), 0)
        },
    }
}

/// A cell that carries its background in itself is painted the same whatever
/// the style table holds, in the foreground color of the theme and without
/// flags.
pub proof fn inline_background_ignores_styles(
    bits: u64,
    styles: Seq<(AnsiColor, AnsiColor, u16)>,
    others: Seq<(AnsiColor, AnsiColor, u16)>,
)
    requires
        bits_tag(bits) != ContentTag::Codepoint,
    ensures
        paint(bits, styles) == paint(bits, others),
        paint(bits, styles).0 == AnsiColor::Named(FOREGROUND),
        paint(bits, styles).2 == 0,
{
}

} // verus!
