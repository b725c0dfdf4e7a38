use vstd::prelude::*;
use vstd::string::*;

use crate::color::{TranslatedColor, MAX_CHANNEL};

verus! {

/// The character of a decimal digit.
pub open spec fn digit_char(d: nat) -> char
    recommends
        d < 10,
{
    seq!['0', '1', '2', '3', '4', '5', '6', '7', '8', '9'][d as int]
}

/// The decimal form of `n`: no sign, no leading zeros (`0` is written `0`).
pub open spec fn decimal(n: nat) -> Seq<char>
    decreases n,
{
    if n < 10 {
        seq![digit_char(n)]
    } else {
        decimal(n / 10).push(digit_char(n % 10))
    }
}

/// One pixel of an ASCII PPM image: red, green and blue in decimal,
/// separated by single spaces, with no line break.
pub open spec fn pixel_text(c: TranslatedColor) -> Seq<char> {
    decimal(c.r as nat) + seq![' '] + decimal(c.g as nat) + seq![' '] + decimal(c.b as nat)
}

/// The header of an ASCII PPM image: the magic `P3`, the width and height,
/// and the maximum channel value, each on a line of its own.
pub open spec fn header_text(width: nat, height: nat) -> Seq<char> {
    seq!['P', '3', '\n'] + decimal(width) + seq![' '] + decimal(height) + seq!['\n']
        + decimal(MAX_CHANNEL as nat) + seq!['\n']
}

fn digit_str(d: u32) -> (s: &'static str)
    requires
        d < 10,
    ensures
        s@ == seq![digit_char(d as nat)],
{
    proof {
        reveal_strlit("0");
        reveal_strlit("1");
        reveal_strlit("2");
        reveal_strlit("3");
        reveal_strlit("4");
        reveal_strlit("5");
        reveal_strlit("6");
        reveal_strlit("7");
        reveal_strlit("8");
        reveal_strlit("9");
    }
    match d {
        0 => "0",
        1 => "1",
        2 => "2",
        3 => "3",
        4 => "4",
        5 => "5",
        6 => "6",
        7 => "7",
        8 => "8",
        _ => "9",
    }
}

/// Appends the decimal form of `n` to `s`.
fn push_decimal(s: &mut String, n: u32)
    ensures
        final(s)@ == old(s)@ + decimal(n as nat),
    decreases n,
{
    if n >= 10 {
        push_decimal(s, n / 10);
    }
    s.append(digit_str(n % 10));
    assert(final(s)@ =~= old(s)@ + decimal(n as nat));
}

/// Renders the PPM header for an image of `width` by `height` pixels.
pub fn ppm_header(width: u32, height: u32) -> (s: String)
    ensures
        s@ == header_text(width as nat, height as nat),
{
    proof {
        reveal_strlit("P3\n");
        reveal_strlit(" ");
        reveal_strlit("\n");
    }
    let mut s = String::new();
    s.append("P3\n");
    push_decimal(&mut s, width);
    s.append(" ");
    push_decimal(&mut s, height);
    s.append("\n");
    push_decimal(&mut s, MAX_CHANNEL);
    s.append("\n");
    assert(s@ =~= header_text(width as nat, height as nat));
    s
}

/// A pixel colour as it is written in an ASCII PPM image.
#[derive(Debug, Clone, Copy, PartialEq)]
pub struct PpmColor<'a>(pub &'a TranslatedColor);

impl PpmColor<'_> {
    /// The pixel's line of text, without the line break.
    pub fn to_string(&self) -> (s: String)
        ensures
            s@ == pixel_text(*self.0),
    {
        proof {
            reveal_strlit(" ");
        }
        let mut s = String::new();
        push_decimal(&mut s, self.0.r);
        s.append(" ");
        push_decimal(&mut s, self.0.g);
        s.append(" ");
        push_decimal(&mut s, self.0.b);
        assert(s@ =~= pixel_text(*self.0));
        s
    }
}

} // verus!
