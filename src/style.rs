//! Colour and text style: the terminal control sequences that wrap a text.

use vstd::prelude::*;

use crate::text::chars_of;

verus! {

/// A foreground colour the output can be painted in.
#[derive(Clone, Copy, Debug, PartialEq, Eq, Structural)]
pub enum Color {
    Red,
    Blue,
    Green,
    Yellow,
    Cyan,
}

/// A text style that can be applied around the (possibly coloured) output.
#[derive(Clone, Copy, Debug, PartialEq, Eq, Structural)]
pub enum Format {
    Bold,
    Underline,
    Strikethrough,
    Dimmed,
}

/// The select-graphic-rendition parameter of a foreground colour.
pub open spec fn color_code(c: Color) -> Seq<char> {
    match c {
        Color::Red => seq!['3', '1'],
        Color::Green => seq!['3', '2'],
        Color::Yellow => seq!['3', '3'],
        Color::Blue => seq!['3', '4'],
        Color::Cyan => seq!['3', '6'],
    }
}

/// The select-graphic-rendition parameter of a text style.
pub open spec fn format_code(f: Format) -> Seq<char> {
    match f {
        Format::Bold => seq!['1'],
        Format::Dimmed => seq!['2'],
        Format::Underline => seq!['4'],
        Format::Strikethrough => seq!['9'],
    }
}

/// `ESC [ code m`: the sequence that switches an attribute on.
pub open spec fn start_seq(code: Seq<char>) -> Seq<char> {
    seq!['\x1b', '['] + code + seq!['m']
}

/// `ESC [ 0 m`: the sequence that switches every attribute off.
pub open spec fn reset_seq() -> Seq<char> {
    seq!['\x1b', '[', '0', 'm']
}

/// `text` between the start sequence of `code` and the reset sequence.
pub open spec fn wrapped(code: Seq<char>, text: Seq<char>) -> Seq<char> {
    start_seq(code) + text + reset_seq()
}

/// `text` painted in `color`; no colour leaves it as it is.
pub open spec fn colored(text: Seq<char>, color: Option<Color>) -> Seq<char> {
    match color {
        Some(c) => wrapped(color_code(c), text),
        None => text,
    }
}

/// `text` in style `format`; no style leaves it as it is.
pub open spec fn formatted(text: Seq<char>, format: Option<Format>) -> Seq<char> {
    match format {
        Some(f) => wrapped(format_code(f), text),
        None => text,
    }
}

/// The name of a colour on the command line.
pub open spec fn color_name(c: Color) -> Seq<char> {
    match c {
        Color::Red => seq!['r', 'e', 'd'],
        Color::Blue => seq!['b', 'l', 'u', 'e'],
        Color::Green => seq!['g', 'r', 'e', 'e', 'n'],
        Color::Yellow => seq!['y', 'e', 'l', 'l', 'o', 'w'],
        Color::Cyan => seq!['c', 'y', 'a', 'n'],
    }
}

/// The name of a text style on the command line.
pub open spec fn format_name(f: Format) -> Seq<char> {
    match f {
        Format::Bold => seq!['b', 'o', 'l', 'd'],
        Format::Underline => seq!['u', 'n', 'd', 'e', 'r', 'l', 'i', 'n', 'e'],
        Format::Strikethrough => seq![
            's', 't', 'r', 'i', 'k', 'e', 't', 'h', 'r', 'o', 'u', 'g', 'h',
        ],
        Format::Dimmed => seq!['d', 'i', 'm', 'm', 'e', 'd'],
    }
}

/// Whether `a` and `b` hold the same characters.
fn same_chars(a: &Vec<char>, b: &[char]) -> (r: bool)
    ensures
        r == (a@ == b@),
{
    if a.len() != b.len() {
        return false;
    }
    let mut i: usize = 0;
    while i < a.len()
        invariant
            a@.len() == b@.len(),
            i <= a@.len(),
            forall|k: int| 0 <= k < i ==> a@[k] == b@[k],
        decreases a@.len() - i,
    {
        if a[i] != b[i] {
            return false;
        }
        i = i + 1;
    }
    assert(a@ =~= b@);
    true
}

impl Color {
    /// The colour called `name` (`red`, `blue`, `green`, `yellow`, `cyan`).
    pub fn from_name(name: &str) -> (r: Option<Color>)
        ensures
            r matches Some(c) ==> color_name(c) == name@,
            r is None ==> forall|c: Color| color_name(c) != name@,
    {
        let s = chars_of(name);
        if same_chars(&s, &['r', 'e', 'd']) {
            Some(Color::Red)
        } else if same_chars(&s, &['b', 'l', 'u', 'e']) {
            Some(Color::Blue)
        } else if same_chars(&s, &['g', 'r', 'e', 'e', 'n']) {
            Some(Color::Green)
        } else if same_chars(&s, &['y', 'e', 'l', 'l', 'o', 'w']) {
            Some(Color::Yellow)
        } else if same_chars(&s, &['c', 'y', 'a', 'n']) {
            Some(Color::Cyan)
        } else {
            None
        }
    }
}

impl Format {
    /// The style called `name` (`bold`, `underline`, `strikethrough`, `dimmed`).
    pub fn from_name(name: &str) -> (r: Option<Format>)
        ensures
            r matches Some(f) ==> format_name(f) == name@,
            r is None ==> forall|f: Format| format_name(f) != name@,
    {
        let s = chars_of(name);
        if same_chars(&s, &['b', 'o', 'l', 'd']) {
            Some(Format::Bold)
        } else if same_chars(&s, &['u', 'n', 'd', 'e', 'r', 'l', 'i', 'n', 'e']) {
            Some(Format::Underline)
        } else if same_chars(
            &s,
            &['s', 't', 'r', 'i', 'k', 'e', 't', 'h', 'r', 'o', 'u', 'g', 'h'],
        ) {
            Some(Format::Strikethrough)
        } else if same_chars(&s, &['d', 'i', 'm', 'm', 'e', 'd']) {
            Some(Format::Dimmed)
        } else {
            None
        }
    }
}

/// Relies on `ansi_term::Colour::paint` and the `Display` of the painted
/// string: a style with a foreground colour writes `ESC [ <code> m`, the text,
/// then `ESC [ 0 m`.
#[verifier::external_body]
fn paint_colour(c: Color, text: &str) -> (r: String)
    ensures
        r@ == wrapped(color_code(c), text@),
{
    let colour = match c {
        Color::Red => ansi_term::Colour::Red,
        Color::Blue => ansi_term::Colour::Blue,
        Color::Green => ansi_term::Colour::Green,
        Color::Yellow => ansi_term::Colour::Yellow,
        Color::Cyan => ansi_term::Colour::Cyan,
    };
    colour.paint(text).to_string()
}

/// Relies on `ansi_term::Style::paint` and the `Display` of the painted
/// string: a style with one attribute set writes `ESC [ <code> m`, the text,
/// then `ESC [ 0 m`.
#[verifier::external_body]
fn paint_style(f: Format, text: &str) -> (r: String)
    ensures
        r@ == wrapped(format_code(f), text@),
{
    let style = match f {
        Format::Bold => ansi_term::Style::new().bold(),
        Format::Underline => ansi_term::Style::new().underline(),
        Format::Strikethrough => ansi_term::Style::new().strikethrough(),
        Format::Dimmed => ansi_term::Style::new().dimmed(),
    };
    style.paint(text).to_string()
}

/// Paints `text` in `color`, or hands it back unchanged when there is none.
pub fn apply_color(text: String, color: Option<Color>) -> (r: String)
    ensures
        r@ == colored(text@, color),
{
    match color {
        Some(c) => paint_colour(c, text.as_str()),
        None => text,
    }
}

/// Wraps `text` in `format`, or hands it back unchanged when there is none.
pub fn apply_format(text: String, format: Option<Format>) -> (r: String)
    ensures
        r@ == formatted(text@, format),
{
    match format {
        Some(f) => paint_style(f, text.as_str()),
        None => text,
    }
}

} // verus!
