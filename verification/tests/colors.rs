//! The colors of a cell.
use rio_vt::config::colors::{AnsiColor as OuterColor, ColorRgb, NamedColor};
use rio_vt::crosswords::square::Square;
use rio_vt::crosswords::style::{Style, StyleFlags};
use terminal_backend::colors::{square_colors, AnsiColor, BACKGROUND, FOREGROUND};

fn styles() -> Vec<Style> {
    let mut bold = Style::default();
    bold.fg = OuterColor::Indexed(7);
    bold.bg = OuterColor::Spec(ColorRgb { r: 1, g: 2, b: 3 });
    bold.flags = StyleFlags::BOLD | StyleFlags::ITALIC;
    let mut named = Style::default();
    named.fg = OuterColor::Named(NamedColor::Red);
    vec![Style::default(), bold, named]
}

#[test]
fn color_numbers_are_those_of_the_terminal_core() {
    assert_eq!(FOREGROUND, NamedColor::Foreground as u16);
    assert_eq!(BACKGROUND, NamedColor::Background as u16);
}

#[test]
fn text_cells_look_their_style_up() {
    let mut square = Square::default();
    square.set_c('x');
    square.set_style_id(1);
    assert_eq!(
        square_colors(square, &styles()),
        (
            AnsiColor::Indexed(7),
            AnsiColor::Spec(1, 2, 3),
            (StyleFlags::BOLD | StyleFlags::ITALIC).bits()
        )
    );
    square.set_style_id(2);
    assert_eq!(
        square_colors(square, &styles()),
        (AnsiColor::Named(NamedColor::Red as u16), AnsiColor::Named(BACKGROUND), 0)
    );
}

#[test]
fn missing_style_is_the_default_style() {
    let mut square = Square::default();
    square.set_style_id(3);
    let plain = (AnsiColor::Named(FOREGROUND), AnsiColor::Named(BACKGROUND), 0);
    assert_eq!(square_colors(square, &styles()), plain);
    assert_eq!(square_colors(Square::default(), &[]), plain);
    assert_eq!(square_colors(Square::default(), &styles()), plain);
}

#[test]
fn palette_background() {
    let mut square = Square::default();
    square.set_bg_palette(213);
    assert_eq!(
        square_colors(square, &styles()),
        (AnsiColor::Named(FOREGROUND), AnsiColor::Indexed(213), 0)
    );
}

#[test]
fn rgb_background_is_in_order() {
    let mut square = Square::default();
    square.set_bg_rgb(10, 20, 250);
    assert_eq!(
        square_colors(square, &styles()),
        (AnsiColor::Named(FOREGROUND), AnsiColor::Spec(10, 20, 250), 0)
    );
}

#[test]
fn inline_background_does_not_depend_on_styles() {
    let mut square = Square::default();
    square.set_bg_rgb(1, 0, 0);
    assert_eq!(square_colors(square, &styles()), square_colors(square, &[]));
}
