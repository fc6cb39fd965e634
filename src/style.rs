//! Terminal styles: a colour and an emphasis, written as ANSI escape codes.
use vstd::prelude::*;

use owo_colors::{OwoColorize, Style};

verus! {

/// Foreground colours that the console output uses.
#[derive(Clone, Copy, Debug, PartialEq, Eq, Structural)]
pub enum Hue {
    Red,
    Green,
    Yellow,
    Blue,
    Magenta,
    Cyan,
    BrightBlack,
    Rgb(u8, u8, u8),
}

/// Text emphasis; `Underlined` is italic with an underline.
#[derive(Clone, Copy, Debug, PartialEq, Eq, Structural)]
pub enum Emphasis {
    Plain,
    Bold,
    Italic,
    Underlined,
}

/// A complete text style.
#[derive(Clone, Copy, Debug, PartialEq, Eq, Structural)]
pub struct Look {
    pub hue: Hue,
    pub emphasis: Emphasis,
}

/// The decimal digit for `d < 10`.
pub open spec fn digit_char(d: nat) -> char {
    seq!['0', '1', '2', '3', '4', '5', '6', '7', '8', '9'][d as int]
}

/// The decimal digits of `n`, without leading zeros.
pub open spec fn decimal(n: nat) -> Seq<char>
    decreases n,
{
    if n < 10 {
        seq![digit_char(n)]
    } else {
        decimal(n / 10) + seq![digit_char(n % 10)]
    }
}

/// The SGR parameters that select a foreground colour.
pub open spec fn hue_code(hue: Hue) -> Seq<char> {
    match hue {
        Hue::Red => seq!['3', '1'],
        Hue::Green => seq!['3', '2'],
        Hue::Yellow => seq!['3', '3'],
        Hue::Blue => seq!['3', '4'],
        Hue::Magenta => seq!['3', '5'],
        Hue::Cyan => seq!['3', '6'],
        Hue::BrightBlack => seq!['9', '0'],
        Hue::Rgb(r, g, b) => seq!['3', '8', ';', '2', ';'] + decimal(r as nat) + seq![';']
            + decimal(g as nat) + seq![';'] + decimal(b as nat),
    }
}

/// The SGR parameters that follow the colour for an emphasis.
pub open spec fn emphasis_code(emphasis: Emphasis) -> Seq<char> {
    match emphasis {
        Emphasis::Plain => seq![],
        Emphasis::Bold => seq![';', '1'],
        Emphasis::Italic => seq![';', '3'],
        Emphasis::Underlined => seq![';', '3', ';', '4'],
    }
}

/// `text` between the escape sequence that selects `look` and the one that
/// resets all attributes.
pub open spec fn painted(text: Seq<char>, look: Look) -> Seq<char> {
    seq!['\x1b', '['] + hue_code(look.hue) + emphasis_code(look.emphasis) + seq!['m'] + text
        + seq!['\x1b', '[', '0', 'm']
}

/// `text` in `look` where styling is on, and as it stands where it is off.
pub open spec fn styled(text: Seq<char>, look: Look, colored: bool) -> Seq<char> {
    if colored {
        painted(text, look)
    } else {
        text
    }
}

/// Relies on owo_colors: a `Style` built by the colour methods (`red`, ...,
/// `truecolor`) and `bold`, `italic`, `underline`, applied by
/// `OwoColorize::style`, writes the colour's code, then `1` for bold, `3` for
/// italic and `4` for underline, as one escape sequence before the text, and
/// a reset after it.
#[verifier::external_body]
fn paint(text: &str, look: Look) -> (r: String)
    ensures
        r@ == painted(text@, look),
{
    let style = match look.hue {
        Hue::Red => Style::new().red(),
        Hue::Green => Style::new().green(),
        Hue::Yellow => Style::new().yellow(),
        Hue::Blue => Style::new().blue(),
        Hue::Magenta => Style::new().magenta(),
        Hue::Cyan => Style::new().cyan(),
        Hue::BrightBlack => Style::new().bright_black(),
        Hue::Rgb(r, g, b) => Style::new().truecolor(r, g, b),
    };
    format!("{}", text.style(match look.emphasis {
        Emphasis::Bold => style.bold(),
        Emphasis::Italic => style.italic(),
        Emphasis::Underlined => style.italic().underline(),
        Emphasis::Plain => style }))
}

/// `text` in `look`, or unchanged where `colored` is off.
pub fn style_text(text: &str, look: Look, colored: bool) -> (r: String)
    ensures
        r@ == styled(text@, look, colored),
{
    if colored {
        paint(text, look)
    } else {
        text.to_owned()
    }
}

} // verus!
