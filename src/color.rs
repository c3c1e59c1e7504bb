//! Colors: the seven named presets and custom RGB values.
use vstd::prelude::*;

use crate::error::ErrorKind;
use crate::text::{
    all_hex_digits, hex_byte, hex_char, hex_value, hex_value_of, is_hex_digit, is_hex_digit_char, is_token,
    lower_of, lowercase, push_hex_byte,
};

verus! {

/// A color that the light can be set to.
#[derive(Clone, Copy, Debug, PartialEq, Eq, Structural)]
pub enum SolidColor {
    /// A preset color
    Red,
    /// A preset color
    Green,
    /// A preset color
    Yellow,
    /// A preset color
    Blue,
    /// A preset color
    White,
    /// A preset color
    Cyan,
    /// A preset color
    Magenta,
    /// A custom color using standard RGB values
    Custom {
        /// The _red_ channel
        red: u8,
        /// The _green_ channel
        green: u8,
        /// The _blue_ channel
        blue: u8,
    },
}

/// The red, green and blue channels of a color.
pub open spec fn rgb(c: SolidColor) -> (u8, u8, u8) {
    match c {
        SolidColor::Red => (255, 0, 0),
        SolidColor::Green => (0, 255, 0),
        SolidColor::Yellow => (255, 255, 0),
        SolidColor::Blue => (0, 0, 255),
        SolidColor::White => (255, 255, 255),
        SolidColor::Cyan => (0, 255, 255),
        SolidColor::Magenta => (255, 0, 255),
        SolidColor::Custom { red, green, blue } => (red, green, blue),
    }
}

/// The token of a color: its name, or six lowercase hexadecimal digits for a custom color.
pub open spec fn color_text(c: SolidColor) -> Seq<char> {
    match c {
        SolidColor::Red => "red"@,
        SolidColor::Green => "green"@,
        SolidColor::Yellow => "yellow"@,
        SolidColor::Blue => "blue"@,
        SolidColor::White => "white"@,
        SolidColor::Cyan => "cyan"@,
        SolidColor::Magenta => "magenta"@,
        SolidColor::Custom { red, green, blue } => hex_byte(red) + hex_byte(green) + hex_byte(blue),
    }
}

/// One of the seven color names.
pub open spec fn is_color_name(t: Seq<char>) -> bool {
    t == "red"@ || t == "green"@ || t == "yellow"@ || t == "blue"@ || t == "white"@ || t
        == "cyan"@ || t == "magenta"@
}

/// What a lowercase token parses to. A custom color takes each channel from a single digit,
/// the first, third and fifth of the six.
pub open spec fn color_of_token(t: Seq<char>) -> Result<SolidColor, ErrorKind> {
    if t == "red"@ {
        Ok(SolidColor::Red)
    } else if t == "green"@ {
        Ok(SolidColor::Green)
    } else if t == "yellow"@ {
        Ok(SolidColor::Yellow)
    } else if t == "blue"@ {
        Ok(SolidColor::Blue)
    } else if t == "white"@ {
        Ok(SolidColor::White)
    } else if t == "cyan"@ {
        Ok(SolidColor::Cyan)
    } else if t == "magenta"@ {
        Ok(SolidColor::Magenta)
    } else if t.len() == 6 && all_hex_digits(t) {
        Ok(SolidColor::Custom { red: hex_value(t[0]), green: hex_value(t[2]), blue: hex_value(t[4]) })
    } else {
        Err(ErrorKind::InvalidColor)
    }
}

/// Whether `t` is exactly six hexadecimal digits.
fn is_six_hex_digits(t: &String) -> (r: bool)
    ensures
        r == (t@.len() == 6 && all_hex_digits(t@)),
{
    let s = t.as_str();
    if s.unicode_len() != 6 {
        return false;
    }
    let mut i: usize = 0;
    while i < 6
        invariant
            i <= 6,
            s@ == t@,
            s@.len() == 6,
            forall|j: int| 0 <= j < i ==> is_hex_digit(#[trigger] s@[j]),
        decreases 6 - i,
    {
        if !is_hex_digit_char(s.get_char(i)) {
            return false;
        }
        i = i + 1;
    }
    true
}

impl SolidColor {
    /// Parses a token that is already in lowercase.
    pub fn from_lowercase(t: &String) -> (r: Result<SolidColor, ErrorKind>)
        ensures
            r == color_of_token(t@),
    {
        if is_token(t, "red") {
            Ok(SolidColor::Red)
        } else if is_token(t, "green") {
            Ok(SolidColor::Green)
        } else if is_token(t, "yellow") {
            Ok(SolidColor::Yellow)
        } else if is_token(t, "blue") {
            Ok(SolidColor::Blue)
        } else if is_token(t, "white") {
            Ok(SolidColor::White)
        } else if is_token(t, "cyan") {
            Ok(SolidColor::Cyan)
        } else if is_token(t, "magenta") {
            Ok(SolidColor::Magenta)
        } else if is_six_hex_digits(t) {
            let s = t.as_str();
            let red = hex_value_of(s.get_char(0));
            let green = hex_value_of(s.get_char(2));
            let blue = hex_value_of(s.get_char(4));
            Ok(SolidColor::Custom { red, green, blue })
        } else {
            Err(ErrorKind::InvalidColor)
        }
    }

    /// Parses a color token, ignoring case.
    pub fn parse(s: &str) -> (r: Result<SolidColor, ErrorKind>)
        ensures
            r == color_of_token(lower_of(s@)),
    {
        let t = lowercase(s);
        SolidColor::from_lowercase(&t)
    }

    /// The token of this color.
    pub fn to_string(&self) -> (r: String)
        ensures
            r@ == color_text(*self),
    {
        match self {
            SolidColor::Red => String::from_str("red"),
            SolidColor::Green => String::from_str("green"),
            SolidColor::Yellow => String::from_str("yellow"),
            SolidColor::Blue => String::from_str("blue"),
            SolidColor::White => String::from_str("white"),
            SolidColor::Cyan => String::from_str("cyan"),
            SolidColor::Magenta => String::from_str("magenta"),
            SolidColor::Custom { red, green, blue } => {
                let mut s = String::new();
                push_hex_byte(&mut s, *red);
                push_hex_byte(&mut s, *green);
                push_hex_byte(&mut s, *blue);
                assert(s@ =~= color_text(*self));
                s
            },
        }
    }

    /// The red, green and blue channels of this color.
    pub fn to_rgb(&self) -> (r: (u8, u8, u8))
        ensures
            r == rgb(*self),
    {
        match self {
            SolidColor::Red => (255, 0, 0),
            SolidColor::Green => (0, 255, 0),
            SolidColor::Yellow => (255, 255, 0),
            SolidColor::Blue => (0, 0, 255),
            SolidColor::White => (255, 255, 255),
            SolidColor::Cyan => (0, 255, 255),
            SolidColor::Magenta => (255, 0, 255),
            SolidColor::Custom { red, green, blue } => (*red, *green, *blue),
        }
    }
}

impl core::str::FromStr for SolidColor {
    type Err = ErrorKind;

    fn from_str(s: &str) -> Result<SolidColor, ErrorKind> {
        SolidColor::parse(s)
    }
}

/// Every character is a lowercase hexadecimal digit.
pub open spec fn is_lower_hex(s: Seq<char>) -> bool {
    forall|i: int| 0 <= i < s.len() ==> ('0' <= #[trigger] s[i] <= '9' || 'a' <= s[i] <= 'f')
}

/// What parsing the token of a color gives back: a named color itself; for a custom color,
/// the color made of the high digit of each channel.
pub open spec fn reparsed(c: SolidColor) -> SolidColor {
    match c {
        SolidColor::Custom { red, green, blue } => SolidColor::Custom {
            red: red / 16,
            green: green / 16,
            blue: blue / 16,
        },
        _ => c,
    }
}

proof fn lemma_hex_char(n: u8)
    requires
        n < 16,
    ensures
        '0' <= hex_char(n) <= '9' || 'a' <= hex_char(n) <= 'f',
        hex_value(hex_char(n)) == n,
{
}

proof fn lemma_hex_byte(b: u8)
    ensures
        is_lower_hex(hex_byte(b)),
        hex_byte(b).len() == 2,
        hex_value(hex_byte(b)[0]) == b / 16,
{
    lemma_hex_char(b / 16);
    lemma_hex_char(b % 16);
}

proof fn lemma_names_revealed()
    ensures
        "red"@ =~= seq!['r', 'e', 'd'],
        "green"@ =~= seq!['g', 'r', 'e', 'e', 'n'],
        "yellow"@ =~= seq!['y', 'e', 'l', 'l', 'o', 'w'],
        "blue"@ =~= seq!['b', 'l', 'u', 'e'],
        "white"@ =~= seq!['w', 'h', 'i', 't', 'e'],
        "cyan"@ =~= seq!['c', 'y', 'a', 'n'],
        "magenta"@ =~= seq!['m', 'a', 'g', 'e', 'n', 't', 'a'],
{
    reveal_strlit("red");
    reveal_strlit("green");
    reveal_strlit("yellow");
    reveal_strlit("blue");
    reveal_strlit("white");
    reveal_strlit("cyan");
    reveal_strlit("magenta");
}

/// Formatting a parsed color name gives the name back (parsing folds case first, so this is
/// the lowercase form of what was parsed).
pub proof fn lemma_color_name_round_trip(t: Seq<char>)
    requires
        is_color_name(t),
    ensures
        color_of_token(t) matches Ok(c) && color_text(c) == t,
{
    lemma_names_revealed();
}

/// A token of six hexadecimal digits that is no color name parses to a custom color, whose
/// own token is again six lowercase hexadecimal digits.
pub proof fn lemma_hex_token_is_custom(t: Seq<char>)
    requires
        t.len() == 6,
        all_hex_digits(t),
        !is_color_name(t),
    ensures
        color_of_token(t) matches Ok(c) && c is Custom && color_text(c).len() == 6
            && is_lower_hex(color_text(c)),
{
    match color_of_token(t) {
        Ok(c) => {
            if let SolidColor::Custom { red, green, blue } = c {
                lemma_hex_byte(red);
                lemma_hex_byte(green);
                lemma_hex_byte(blue);
                let s = color_text(c);
                assert forall|i: int| 0 <= i < s.len() implies ('0' <= #[trigger] s[i] <= '9' || 'a'
                    <= s[i] <= 'f') by {
                    if i < 2 {
                        assert(s[i] == hex_byte(red)[i]);
                    } else if i < 4 {
                        assert(s[i] == hex_byte(green)[i - 2]);
                    } else {
                        assert(s[i] == hex_byte(blue)[i - 4]);
                    }
                }
            }
        },
        Err(_) => {},
    }
}

/// Parsing the token of any color succeeds: a named color comes back as itself, a custom
/// color as the color of the high digits of its channels.
pub proof fn lemma_color_text_parses_back(c: SolidColor)
    ensures
        color_of_token(color_text(c)) == Ok::<SolidColor, ErrorKind>(reparsed(c)),
{
    lemma_names_revealed();
    if let SolidColor::Custom { red, green, blue } = c {
        lemma_hex_byte(red);
        lemma_hex_byte(green);
        lemma_hex_byte(blue);
        let s = color_text(c);
        assert(s[0] == hex_byte(red)[0]);
        assert(s[2] == hex_byte(green)[0]);
        assert(s[4] == hex_byte(blue)[0]);
        assert(s.len() == 6);
        assert(all_hex_digits(s)) by {
            assert forall|i: int| 0 <= i < s.len() implies crate::text::is_hex_digit(#[trigger] s[i]) by {
                if i < 2 {
                    assert(s[i] == hex_byte(red)[i]);
                } else if i < 4 {
                    assert(s[i] == hex_byte(green)[i - 2]);
                } else {
                    assert(s[i] == hex_byte(blue)[i - 4]);
                }
            }
        }
    }
}

} // verus!
