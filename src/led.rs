//! Which LEDs of a light a command addresses.
use vstd::prelude::*;

use crate::error::ErrorKind;
use crate::text::{decimal, is_token, lower_of, lowercase, push_decimal};

verus! {

/// Which LED in the light is the target of device operations.
#[derive(Clone, Copy, Debug, PartialEq, Eq, Structural)]
pub enum SpecificLED {
    /// All supported LEDs
    All,
    /// Only the LEDs on the front (tab) of the light
    AllFront,
    /// Only the LEDs on the back of the light
    AllBack,
    /// Only one specific LED (valid: 1..=6)
    Number(u8),
}

/// A target that a device can address: a single LED must be one of the six.
pub open spec fn is_valid_led(led: SpecificLED) -> bool {
    led matches SpecificLED::Number(n) ==> 1 <= n <= 6
}

/// The token of an LED target.
pub open spec fn led_text(led: SpecificLED) -> Seq<char> {
    match led {
        SpecificLED::All => "all"@,
        SpecificLED::AllFront => "front"@,
        SpecificLED::AllBack => "back"@,
        SpecificLED::Number(n) => decimal(n as nat),
    }
}

/// What a lowercase token parses to as an LED target.
pub open spec fn led_of_token(t: Seq<char>) -> Result<SpecificLED, ErrorKind> {
    if t == "all"@ {
        Ok(SpecificLED::All)
    } else if t == "front"@ {
        Ok(SpecificLED::AllFront)
    } else if t == "back"@ {
        Ok(SpecificLED::AllBack)
    } else if t == "1"@ {
        Ok(SpecificLED::Number(1))
    } else if t == "2"@ {
        Ok(SpecificLED::Number(2))
    } else if t == "3"@ {
        Ok(SpecificLED::Number(3))
    } else if t == "4"@ {
        Ok(SpecificLED::Number(4))
    } else if t == "5"@ {
        Ok(SpecificLED::Number(5))
    } else if t == "6"@ {
        Ok(SpecificLED::Number(6))
    } else {
        Err(ErrorKind::InvalidLED)
    }
}

impl SpecificLED {
    /// Parses a token that is already in lowercase.
    pub fn from_lowercase(t: &String) -> (r: Result<SpecificLED, ErrorKind>)
        ensures
            r == led_of_token(t@),
    {
        if is_token(t, "all") {
            Ok(SpecificLED::All)
        } else if is_token(t, "front") {
            Ok(SpecificLED::AllFront)
        } else if is_token(t, "back") {
            Ok(SpecificLED::AllBack)
        } else if is_token(t, "1") {
            Ok(SpecificLED::Number(1))
        } else if is_token(t, "2") {
            Ok(SpecificLED::Number(2))
        } else if is_token(t, "3") {
            Ok(SpecificLED::Number(3))
        } else if is_token(t, "4") {
            Ok(SpecificLED::Number(4))
        } else if is_token(t, "5") {
            Ok(SpecificLED::Number(5))
        } else if is_token(t, "6") {
            Ok(SpecificLED::Number(6))
        } else {
            Err(ErrorKind::InvalidLED)
        }
    }

    /// Parses an LED token, ignoring case.
    pub fn parse(s: &str) -> (r: Result<SpecificLED, ErrorKind>)
        ensures
            r == led_of_token(lower_of(s@)),
    {
        let t = lowercase(s);
        SpecificLED::from_lowercase(&t)
    }

    /// The token of this LED target.
    pub fn to_string(&self) -> (r: String)
        ensures
            r@ == led_text(*self),
    {
        match self {
            SpecificLED::All => String::from_str("all"),
            SpecificLED::AllFront => String::from_str("front"),
            SpecificLED::AllBack => String::from_str("back"),
            SpecificLED::Number(n) => {
                let mut s = String::new();
                push_decimal(&mut s, *n as u16);
                assert(s@ =~= led_text(*self));
                s
            },
        }
    }
}

impl core::str::FromStr for SpecificLED {
    type Err = ErrorKind;

    fn from_str(s: &str) -> Result<SpecificLED, ErrorKind> {
        SpecificLED::parse(s)
    }
}

proof fn lemma_led_tokens_revealed()
    ensures
        "all"@ =~= seq!['a', 'l', 'l'],
        "front"@ =~= seq!['f', 'r', 'o', 'n', 't'],
        "back"@ =~= seq!['b', 'a', 'c', 'k'],
        "1"@ =~= seq!['1'],
        "2"@ =~= seq!['2'],
        "3"@ =~= seq!['3'],
        "4"@ =~= seq!['4'],
        "5"@ =~= seq!['5'],
        "6"@ =~= seq!['6'],
{
    reveal_strlit("all");
    reveal_strlit("front");
    reveal_strlit("back");
    reveal_strlit("1");
    reveal_strlit("2");
    reveal_strlit("3");
    reveal_strlit("4");
    reveal_strlit("5");
    reveal_strlit("6");
}

/// Formatting is the inverse of parsing for LED targets: the token of a valid target parses
/// back to it, and a token that parses is the token of what it parsed to.
pub proof fn lemma_led_round_trip(led: SpecificLED, t: Seq<char>)
    ensures
        is_valid_led(led) ==> led_of_token(led_text(led)) == Ok::<SpecificLED, ErrorKind>(led),
        led_of_token(t) matches Ok(l) ==> led_text(l) == t,
{
    lemma_led_tokens_revealed();
    assert(decimal(1) =~= "1"@ && decimal(2) =~= "2"@ && decimal(3) =~= "3"@);
    assert(decimal(4) =~= "4"@ && decimal(5) =~= "5"@ && decimal(6) =~= "6"@);
    if let SpecificLED::Number(n) = led {
        if 1 <= n <= 6 {
            // A single digit, which tells the six tokens of single LEDs apart.
            let d = decimal(n as nat);
            assert(d =~= seq![('0' as u32 + n as u32) as char]);
            assert(n >= 2 ==> d[0] != "1"@[0]);
            assert(n >= 3 ==> d[0] != "2"@[0]);
            assert(n >= 4 ==> d[0] != "3"@[0]);
            assert(n >= 5 ==> d[0] != "4"@[0]);
            assert(n >= 6 ==> d[0] != "5"@[0]);
        }
    }
}

} // verus!
