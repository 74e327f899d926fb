//! ANSI foreground colouring through `owo_colors`.
use owo_colors::OwoColorize;
use vstd::prelude::*;

verus! {

/// The colours the logger paints with.
#[derive(Clone, Copy, Debug, PartialEq, Eq, Structural)]
pub enum Color {
    Red,
    Yellow,
    Green,
    Blue,
    Magenta,
}

/// The two digits of the ANSI foreground code of a colour (31 red, 32 green,
/// 33 yellow, 34 blue, 35 magenta).
pub open spec fn fg_code(c: Color) -> Seq<char> {
    match c {
        Color::Red => seq!['3', '1'],
        Color::Green => seq!['3', '2'],
        Color::Yellow => seq!['3', '3'],
        Color::Blue => seq!['3', '4'],
        Color::Magenta => seq!['3', '5'],
    }
}

/// `text` between the escape sequence that selects the colour and the one that
/// restores the default foreground (`ESC [ 3 9 m`).
pub open spec fn painted(c: Color, text: Seq<char>) -> Seq<char> {
    seq!['\x1b', '['] + fg_code(c) + seq!['m'] + text + seq!['\x1b', '[', '3', '9', 'm']
}

/// Formats `text.red()` of `owo_colors`, whose `Display` writes `ESC[31m`, the
/// text, then `ESC[39m`.
#[verifier::external_body]
fn red(text: &str) -> (r: String)
    ensures
        r@ == painted(Color::Red, text@),
{
    format!("{}", text.red())
}

/// Formats `text.yellow()` of `owo_colors`: `ESC[33m`, the text, `ESC[39m`.
#[verifier::external_body]
fn yellow(text: &str) -> (r: String)
    ensures
        r@ == painted(Color::Yellow, text@),
{
    format!("{}", text.yellow())
}

/// Formats `text.green()` of `owo_colors`: `ESC[32m`, the text, `ESC[39m`.
#[verifier::external_body]
fn green(text: &str) -> (r: String)
    ensures
        r@ == painted(Color::Green, text@),
{
    format!("{}", text.green())
}

/// Formats `text.blue()` of `owo_colors`: `ESC[34m`, the text, `ESC[39m`.
#[verifier::external_body]
fn blue(text: &str) -> (r: String)
    ensures
        r@ == painted(Color::Blue, text@),
{
    format!("{}", text.blue())
}

/// Formats `text.magenta()` of `owo_colors`: `ESC[35m`, the text, `ESC[39m`.
#[verifier::external_body]
fn magenta(text: &str) -> (r: String)
    ensures
        r@ == painted(Color::Magenta, text@),
{
    format!("{}", text.magenta())
}

/// Paints `text` in colour `c`.
pub fn paint(c: Color, text: &str) -> (r: String)
    ensures
        r@ == painted(c, text@),
{
    match c {
        Color::Red => red(text),
        Color::Yellow => yellow(text),
        Color::Green => green(text),
        Color::Blue => blue(text),
        Color::Magenta => magenta(text),
    }
}

} // verus!
