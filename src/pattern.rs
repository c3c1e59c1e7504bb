//! Wave styles and preset patterns.
use vstd::prelude::*;

use crate::error::ErrorKind;
use crate::text::{decimal, is_token, lower_of, lowercase, push_decimal};

verus! {

/// Waves start at the bottom of the light, fill it, and fade out at the top.
#[derive(Clone, Copy, Debug, PartialEq, Eq, Structural)]
pub enum Wave {
    /// A short transition, completed before the next wave starts.
    Short,
    /// A long transition, completed before the next wave starts.
    Long,
    /// A short transition, which _does not_ complete before the next wave starts.
    OverlappingShort,
    /// A long transition, which _does not_ complete before the next wave starts.
    OverlappingLong,
}

/// A preset pattern the light can show.
///
/// `Rainbow`, `Sea`, `WhiteWave` and `Synthetic` exist only on some platforms: the parser
/// accepts their tokens only when asked to.
#[derive(Clone, Copy, Debug, PartialEq, Eq, Structural)]
pub enum Pattern {
    /// Cycles between red and blue.
    Police,
    /// Cycles between green, yellow, and red.
    TrafficLights,
    /// One of the five preset random patterns (valid: 1..=5).
    Random(u8),
    /// A platform-only preset pattern.
    Rainbow,
    /// A platform-only preset pattern.
    Sea,
    /// A platform-only preset pattern.
    WhiteWave,
    /// A platform-only preset pattern.
    Synthetic,
}

/// The token of a wave style.
pub open spec fn wave_text(w: Wave) -> Seq<char> {
    match w {
        Wave::Short => "short"@,
        Wave::Long => "long"@,
        Wave::OverlappingShort => "overlapping short"@,
        Wave::OverlappingLong => "overlapping long"@,
    }
}

/// What a lowercase token parses to as a wave style.
pub open spec fn wave_of_token(t: Seq<char>) -> Result<Wave, ErrorKind> {
    if t == "short"@ {
        Ok(Wave::Short)
    } else if t == "long"@ {
        Ok(Wave::Long)
    } else if t == "overlapping short"@ {
        Ok(Wave::OverlappingShort)
    } else if t == "overlapping long"@ {
        Ok(Wave::OverlappingLong)
    } else {
        Err(ErrorKind::InvalidPattern)
    }
}

/// A pattern that a device can show: a random pattern must be one of the five.
pub open spec fn is_valid_pattern(p: Pattern) -> bool {
    p matches Pattern::Random(n) ==> 1 <= n <= 5
}

/// One of the patterns that exist only on some platforms.
pub open spec fn is_platform_pattern(p: Pattern) -> bool {
    p is Rainbow || p is Sea || p is WhiteWave || p is Synthetic
}

/// The token of a pattern.
pub open spec fn pattern_text(p: Pattern) -> Seq<char> {
    match p {
        Pattern::Police => "police"@,
        Pattern::TrafficLights => "traffic lights"@,
        Pattern::Random(n) => "random "@ + decimal(n as nat),
        Pattern::Rainbow => "rainbow"@,
        Pattern::Sea => "sea"@,
        Pattern::WhiteWave => "white wave"@,
        Pattern::Synthetic => "synthetic"@,
    }
}

/// What a lowercase token parses to as a pattern; the platform-only tokens are accepted
/// only when `platform_patterns` holds.
pub open spec fn pattern_of_token(t: Seq<char>, platform_patterns: bool) -> Result<
    Pattern,
    ErrorKind,
> {
    if t == "police"@ {
        Ok(Pattern::Police)
    } else if t == "traffic lights"@ {
        Ok(Pattern::TrafficLights)
    } else if t == "random 1"@ {
        Ok(Pattern::Random(1))
    } else if t == "random 2"@ {
        Ok(Pattern::Random(2))
    } else if t == "random 3"@ {
        Ok(Pattern::Random(3))
    } else if t == "random 4"@ {
        Ok(Pattern::Random(4))
    } else if t == "random 5"@ {
        Ok(Pattern::Random(5))
    } else if platform_patterns && t == "rainbow"@ {
        Ok(Pattern::Rainbow)
    } else if platform_patterns && t == "sea"@ {
        Ok(Pattern::Sea)
    } else if platform_patterns && t == "white wave"@ {
        Ok(Pattern::WhiteWave)
    } else if platform_patterns && t == "synthetic"@ {
        Ok(Pattern::Synthetic)
    } else {
        Err(ErrorKind::InvalidPattern)
    }
}

impl Wave {
    /// Parses a token that is already in lowercase.
    pub fn from_lowercase(t: &String) -> (r: Result<Wave, ErrorKind>)
        ensures
            r == wave_of_token(t@),
    {
        if is_token(t, "short") {
            Ok(Wave::Short)
        } else if is_token(t, "long") {
            Ok(Wave::Long)
        } else if is_token(t, "overlapping short") {
            Ok(Wave::OverlappingShort)
        } else if is_token(t, "overlapping long") {
            Ok(Wave::OverlappingLong)
        } else {
            Err(ErrorKind::InvalidPattern)
        }
    }

    /// Parses a wave token, ignoring case.
    pub fn parse(s: &str) -> (r: Result<Wave, ErrorKind>)
        ensures
            r == wave_of_token(lower_of(s@)),
    {
        let t = lowercase(s);
        Wave::from_lowercase(&t)
    }

    /// The token of this wave style.
    pub fn to_string(&self) -> (r: String)
        ensures
            r@ == wave_text(*self),
    {
        match self {
            Wave::Short => String::from_str("short"),
            Wave::Long => String::from_str("long"),
            Wave::OverlappingShort => String::from_str("overlapping short"),
            Wave::OverlappingLong => String::from_str("overlapping long"),
        }
    }
}

impl core::str::FromStr for Wave {
    type Err = ErrorKind;

    fn from_str(s: &str) -> Result<Wave, ErrorKind> {
        Wave::parse(s)
    }
}

impl Pattern {
    /// Parses a token that is already in lowercase; the platform-only tokens are accepted
    /// only when `platform_patterns` holds.
    pub fn from_lowercase(t: &String, platform_patterns: bool) -> (r: Result<Pattern, ErrorKind>)
        ensures
            r == pattern_of_token(t@, platform_patterns),
    {
        if is_token(t, "police") {
            Ok(Pattern::Police)
        } else if is_token(t, "traffic lights") {
            Ok(Pattern::TrafficLights)
        } else if is_token(t, "random 1") {
            Ok(Pattern::Random(1))
        } else if is_token(t, "random 2") {
            Ok(Pattern::Random(2))
        } else if is_token(t, "random 3") {
            Ok(Pattern::Random(3))
        } else if is_token(t, "random 4") {
            Ok(Pattern::Random(4))
        } else if is_token(t, "random 5") {
            Ok(Pattern::Random(5))
        } else if platform_patterns && is_token(t, "rainbow") {
            Ok(Pattern::Rainbow)
        } else if platform_patterns && is_token(t, "sea") {
            Ok(Pattern::Sea)
        } else if platform_patterns && is_token(t, "white wave") {
            Ok(Pattern::WhiteWave)
        } else if platform_patterns && is_token(t, "synthetic") {
            Ok(Pattern::Synthetic)
        } else {
            Err(ErrorKind::InvalidPattern)
        }
    }

    /// Parses a pattern token, ignoring case, where the platform-only patterns are available
    /// only if `platform_patterns` holds.
    pub fn parse_with(s: &str, platform_patterns: bool) -> (r: Result<Pattern, ErrorKind>)
        ensures
            r == pattern_of_token(lower_of(s@), platform_patterns),
    {
        let t = lowercase(s);
        Pattern::from_lowercase(&t, platform_patterns)
    }

    /// Parses a pattern token, ignoring case; the platform-only patterns are rejected.
    pub fn parse(s: &str) -> (r: Result<Pattern, ErrorKind>)
        ensures
            r == pattern_of_token(lower_of(s@), false),
    {
        Pattern::parse_with(s, false)
    }

    /// The token of this pattern.
    pub fn to_string(&self) -> (r: String)
        ensures
            r@ == pattern_text(*self),
    {
        match self {
            Pattern::Police => String::from_str("police"),
            Pattern::TrafficLights => String::from_str("traffic lights"),
            Pattern::Random(n) => {
                let mut s = String::from_str("random ");
                push_decimal(&mut s, *n as u16);
                s
            },
            Pattern::Rainbow => String::from_str("rainbow"),
            Pattern::Sea => String::from_str("sea"),
            Pattern::WhiteWave => String::from_str("white wave"),
            Pattern::Synthetic => String::from_str("synthetic"),
        }
    }
}

impl Pattern {
    /// Whether this pattern can be shown: a random pattern must be one of the five.
    pub fn is_valid(&self) -> (r: bool)
        ensures
            r == is_valid_pattern(*self),
    {
        match self {
            Pattern::Random(n) => 1 <= *n && *n <= 5,
            _ => true,
        }
    }
}

impl core::str::FromStr for Pattern {
    type Err = ErrorKind;

    fn from_str(s: &str) -> Result<Pattern, ErrorKind> {
        Pattern::parse(s)
    }
}

proof fn lemma_wave_tokens_revealed()
    ensures
        "short"@ =~= seq!['s', 'h', 'o', 'r', 't'],
        "long"@ =~= seq!['l', 'o', 'n', 'g'],
        "overlapping short"@ =~= seq![
            'o', 'v', 'e', 'r', 'l', 'a', 'p', 'p', 'i', 'n', 'g', ' ', 's', 'h', 'o', 'r', 't',
        ],
        "overlapping long"@ =~= seq![
            'o', 'v', 'e', 'r', 'l', 'a', 'p', 'p', 'i', 'n', 'g', ' ', 'l', 'o', 'n', 'g',
        ],
{
    reveal_strlit("short");
    reveal_strlit("long");
    reveal_strlit("overlapping short");
    reveal_strlit("overlapping long");
}

proof fn lemma_pattern_tokens_revealed()
    ensures
        "police"@ =~= seq!['p', 'o', 'l', 'i', 'c', 'e'],
        "traffic lights"@ =~= seq![
            't', 'r', 'a', 'f', 'f', 'i', 'c', ' ', 'l', 'i', 'g', 'h', 't', 's',
        ],
        "random "@ =~= seq!['r', 'a', 'n', 'd', 'o', 'm', ' '],
        "random 1"@ =~= seq!['r', 'a', 'n', 'd', 'o', 'm', ' ', '1'],
        "random 2"@ =~= seq!['r', 'a', 'n', 'd', 'o', 'm', ' ', '2'],
        "random 3"@ =~= seq!['r', 'a', 'n', 'd', 'o', 'm', ' ', '3'],
        "random 4"@ =~= seq!['r', 'a', 'n', 'd', 'o', 'm', ' ', '4'],
        "random 5"@ =~= seq!['r', 'a', 'n', 'd', 'o', 'm', ' ', '5'],
        "rainbow"@ =~= seq!['r', 'a', 'i', 'n', 'b', 'o', 'w'],
        "sea"@ =~= seq!['s', 'e', 'a'],
        "white wave"@ =~= seq!['w', 'h', 'i', 't', 'e', ' ', 'w', 'a', 'v', 'e'],
        "synthetic"@ =~= seq!['s', 'y', 'n', 't', 'h', 'e', 't', 'i', 'c'],
{
    reveal_strlit("police");
    reveal_strlit("traffic lights");
    reveal_strlit("random ");
    reveal_strlit("random 1");
    reveal_strlit("random 2");
    reveal_strlit("random 3");
    reveal_strlit("random 4");
    reveal_strlit("random 5");
    reveal_strlit("rainbow");
    reveal_strlit("sea");
    reveal_strlit("white wave");
    reveal_strlit("synthetic");
}

/// Formatting is the inverse of parsing for wave styles: the token of a style parses back to
/// it, and a token that parses is the token of what it parsed to.
pub proof fn lemma_wave_round_trip(w: Wave, t: Seq<char>)
    ensures
        wave_of_token(wave_text(w)) == Ok::<Wave, ErrorKind>(w),
        wave_of_token(t) matches Ok(v) ==> wave_text(v) == t,
{
    lemma_wave_tokens_revealed();
}

/// Formatting is the inverse of parsing for patterns: the token of a valid pattern parses
/// back to it (for a platform-only pattern, where those are accepted), and a token that parses
/// is the token of what it parsed to.
pub proof fn lemma_pattern_round_trip(p: Pattern, platform_patterns: bool, t: Seq<char>)
    ensures
        is_valid_pattern(p) && (platform_patterns || !is_platform_pattern(p)) ==> pattern_of_token(
            pattern_text(p),
            platform_patterns,
        ) == Ok::<Pattern, ErrorKind>(p),
        pattern_of_token(t, platform_patterns) matches Ok(q) ==> pattern_text(q) == t,
{
    lemma_pattern_tokens_revealed();
    assert(decimal(1) =~= seq!['1']);
    assert(decimal(2) =~= seq!['2']);
    assert(decimal(3) =~= seq!['3']);
    assert(decimal(4) =~= seq!['4']);
    assert(decimal(5) =~= seq!['5']);
    assert("random "@ + decimal(1) =~= "random 1"@);
    assert("random "@ + decimal(2) =~= "random 2"@);
    assert("random "@ + decimal(3) =~= "random 3"@);
    assert("random "@ + decimal(4) =~= "random 4"@);
    assert("random "@ + decimal(5) =~= "random 5"@);
}

} // verus!
