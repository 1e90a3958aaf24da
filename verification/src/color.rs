//! Colours, and the text by which a canvas is told of them.

use crate::random::sample_u8;
use rand::rngs::ThreadRng;
use vstd::prelude::*;

verus! {

/// The opacity of a solid colour, in millionths.
pub const OPAQUE: u32 = 1_000_000;

/// A colour: three channels and an opacity in millionths. An opacity of
/// `OPAQUE` or more is solid.
#[derive(Clone, Copy, Debug, PartialEq, Eq, Structural)]
pub struct Color {
    pub red: u8,
    pub green: u8,
    pub blue: u8,
    pub alpha: u32,
}

/// The character of one decimal digit.
pub open spec fn digit(d: int) -> char {
    if d == 0 {
        '0'
    } else if d == 1 {
        '1'
    } else if d == 2 {
        '2'
    } else if d == 3 {
        '3'
    } else if d == 4 {
        '4'
    } else if d == 5 {
        '5'
    } else if d == 6 {
        '6'
    } else if d == 7 {
        '7'
    } else if d == 8 {
        '8'
    } else {
        '9'
    }
}

/// A number in decimal, without leading zeros.
pub open spec fn decimal(n: nat) -> Seq<char>
    decreases n,
{
    if n < 10 {
        seq![digit(n as int)]
    } else {
        decimal(n / 10).push(digit((n % 10) as int))
    }
}

/// The last `places` decimal digits of a number, zeros included.
pub open spec fn padded(n: nat, places: nat) -> Seq<char>
    decreases places,
{
    if places == 0 {
        Seq::empty()
    } else {
        padded(n / 10, (places - 1) as nat).push(digit((n % 10) as int))
    }
}

/// The three channels in decimal, with commas between them.
pub open spec fn channels_text(color: Color) -> Seq<char> {
    decimal(color.red as nat) + seq![','] + decimal(color.green as nat) + seq![','] + decimal(
        color.blue as nat,
    )
}

/// The text of a colour: `rgb(r,g,b)` where it is solid, else
/// `rgba(r,g,b,0.dddddd)` with the opacity to six places.
pub open spec fn css_text(color: Color) -> Seq<char> {
    if color.alpha >= OPAQUE {
        seq!['r', 'g', 'b', '('] + channels_text(color) + seq![')']
    } else {
        seq!['r', 'g', 'b', 'a', '('] + channels_text(color) + seq![',', '0', '.'] + padded(
            color.alpha as nat,
            6,
        ) + seq![')']
    }
}

fn digit_text(d: u32) -> (text: &'static str)
    requires
        d < 10,
    ensures
        text@ == seq![digit(d as int)],
{
    proof {
        reveal_strlit("0");
        reveal_strlit("1");
        reveal_strlit("2");
        reveal_strlit("3");
        reveal_strlit("4");
        reveal_strlit("5");
        reveal_strlit("6");
        reveal_strlit("7");
        reveal_strlit("8");
        reveal_strlit("9");
    }
    let text = if d == 0 {
        "0"
    } else if d == 1 {
        "1"
    } else if d == 2 {
        "2"
    } else if d == 3 {
        "3"
    } else if d == 4 {
        "4"
    } else if d == 5 {
        "5"
    } else if d == 6 {
        "6"
    } else if d == 7 {
        "7"
    } else if d == 8 {
        "8"
    } else {
        "9"
    };
    assert(text@ =~= seq![digit(d as int)]);
    text
}

/// Appends a number in decimal.
pub fn push_decimal(text: &mut String, n: u32)
    ensures
        final(text)@ == old(text)@ + decimal(n as nat),
    decreases n,
{
    if n >= 10 {
        push_decimal(text, n / 10);
    }
    text.append(digit_text(n % 10));
    assert(text@ =~= old(text)@ + decimal(n as nat));
}

/// Appends the last `places` decimal digits of a number.
pub fn push_padded(text: &mut String, n: u32, places: u32)
    ensures
        final(text)@ == old(text)@ + padded(n as nat, places as nat),
    decreases places,
{
    if places > 0 {
        push_padded(text, n / 10, places - 1);
        text.append(digit_text(n % 10));
    }
    assert(text@ =~= old(text)@ + padded(n as nat, places as nat));
}

impl Color {
    /// A solid colour.
    pub fn rgb(red: u8, green: u8, blue: u8) -> (color: Color)
        ensures
            color == (Color { red, green, blue, alpha: OPAQUE }),
    {
        Color { red, green, blue, alpha: OPAQUE }
    }

    /// Whether each channel lies in `low..high` and the opacity is `alpha`.
    pub open spec fn within(self, low: u8, high: u8, alpha: u32) -> bool {
        &&& low <= self.red < high
        &&& low <= self.green < high
        &&& low <= self.blue < high
        &&& self.alpha == alpha
    }

    /// A colour of the given opacity with each channel sampled from
    /// `low..high`: red first, then green, then blue.
    pub fn sample(rng: &mut ThreadRng, low: u8, high: u8, alpha: u32) -> (color: Color)
        requires
            low < high,
        ensures
            color.within(low, high, alpha),
    {
        let red = sample_u8(rng, low, high);
        let green = sample_u8(rng, low, high);
        let blue = sample_u8(rng, low, high);
        Color { red, green, blue, alpha }
    }

    /// The text that names this colour to a canvas.
    pub fn css(&self) -> (text: String)
        ensures
            text@ == css_text(*self),
    {
        proof {
            reveal_strlit("rgb(");
            reveal_strlit("rgba(");
            reveal_strlit(",");
            reveal_strlit(",0.");
            reveal_strlit(")");
        }
        let mut text = String::new();
        if self.alpha >= OPAQUE {
            text.append("rgb(");
        } else {
            text.append("rgba(");
        }
        push_decimal(&mut text, self.red as u32);
        text.append(",");
        push_decimal(&mut text, self.green as u32);
        text.append(",");
        push_decimal(&mut text, self.blue as u32);
        if self.alpha < OPAQUE {
            text.append(",0.");
            push_padded(&mut text, self.alpha, 6);
        }
        text.append(")");
        assert(text@ =~= css_text(*self));
        text
    }
}

} // verus!
