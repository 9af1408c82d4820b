use crossterm::style::{Attribute, Color, SetForegroundColor};
use std::fmt::Write;
use vstd::prelude::*;

use crate::text::decimal;

verus! {

/// A text attribute of the terminal.
#[derive(Debug, Clone, Copy, PartialEq, Eq, Structural)]
pub enum TextAttribute {
    Reset,
    Bold,
    Reverse,
}

/// The parameter of the select-graphic-rendition sequence for an attribute.
pub open spec fn sgr_parameter(attr: TextAttribute) -> Seq<char> {
    match attr {
        TextAttribute::Reset => seq!['0'],
        TextAttribute::Bold => seq!['1'],
        TextAttribute::Reverse => seq!['7'],
    }
}

/// A control sequence `ESC [ <parameters> m`.
pub open spec fn sgr_sequence(parameters: Seq<char>) -> Seq<char> {
    seq!['\x1b', '['] + parameters + seq!['m']
}

/// The parameters that set an RGB foreground colour: `38;2;<r>;<g>;<b>`.
pub open spec fn rgb_foreground_parameters(r: u8, g: u8, b: u8) -> Seq<char> {
    seq!['3', '8', ';', '2', ';'] + decimal(r as nat) + seq![';'] + decimal(g as nat) + seq![';']
        + decimal(b as nat)
}

/// Whether `s` is a text that sets `attr`: its control sequence, or nothing where the console
/// takes no escape sequences.
pub open spec fn is_attribute_text(attr: TextAttribute, s: Seq<char>) -> bool {
    s == sgr_sequence(sgr_parameter(attr)) || s.len() == 0
}

/// Whether `s` is a text that sets the foreground colour to red `r`, green `g`, blue `b`: its
/// control sequence, the sequence without parameters where the environment asks for no
/// colour, or nothing where the console takes no escape sequences.
pub open spec fn is_foreground_text(r: u8, g: u8, b: u8, s: Seq<char>) -> bool {
    s == sgr_sequence(rgb_foreground_parameters(r, g, b)) || s == sgr_sequence(seq![]) || s.len()
        == 0
}

/// The text that sets `attr` (the `Display` of `crossterm::style::Attribute`): the sequence
/// `ESC [ <parameter> m`; crossterm writes nothing instead on a Windows console that takes
/// no escape sequences, so the text may also be empty.
#[verifier::external_body]
pub(crate) fn attribute_sequence(attr: TextAttribute) -> (r: String)
    ensures
        is_attribute_text(attr, r@),
{
    let a = match attr {
        TextAttribute::Reset => Attribute::Reset,
        TextAttribute::Bold => Attribute::Bold,
        TextAttribute::Reverse => Attribute::Reverse,
    };
    format!("{}", a)
}

/// The text that sets the foreground colour to red `r`, green `g`, blue `b` (the `Display` of
/// `crossterm::style::SetForegroundColor`, written into a string with `write!`): `ESC [
/// 38;2;r;g;b m`, or the sequence without parameters where the environment sets `NO_COLOR`.
/// On a Windows console that takes no escape sequences crossterm writes nothing and sets the
/// console's colour itself while formatting; where there is no console to set, formatting
/// fails and the result is `None`.
#[verifier::external_body]
pub(crate) fn foreground_rgb_sequence(r: u8, g: u8, b: u8) -> (s: Option<String>)
    ensures
        s matches Some(t) ==> is_foreground_text(r, g, b, t@),
{
    let mut out = String::new();
    match write!(out, "{}", SetForegroundColor(Color::Rgb { r, g, b })) {
        Ok(()) => Some(out),
        Err(_) => None,
    }
}

} // verus!
