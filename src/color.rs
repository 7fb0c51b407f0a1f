use vstd::prelude::*;
use vstd::string::StringSliceAdditionalSpecFns;

verus! {

/// An 8-bit-per-channel RGBA color as written in a tag, `#RRGGBB` or `#RRGGBBAA`.
#[derive(Debug, Clone, Copy, PartialEq, Eq, Structural)]
pub struct AsepriteColor {
    pub red: u8,
    pub green: u8,
    pub blue: u8,
    pub alpha: u8,
}

/// Why a color string was rejected.
#[derive(Debug, Clone, Copy, PartialEq, Eq, Structural)]
pub enum ColorParseError {
    /// The string does not begin with `#`.
    NoHashtag,
    /// The string has neither 7 nor 9 characters; carries the length found.
    WrongLength(usize),
    /// The character at this position is not a hexadecimal digit.
    InvalidHexDigit(usize),
}

/// The value of a hexadecimal digit, either case.
pub open spec fn hex_value(c: u8) -> Option<u8> {
    if 48u8 <= c && c <= 57u8 {
        Some((c - 48u8) as u8)
    } else if 97u8 <= c && c <= 102u8 {
        Some((c - 97u8 + 10) as u8)
    } else if 65u8 <= c && c <= 70u8 {
        Some((c - 65u8 + 10) as u8)
    } else {
        None
    }
}

/// The position of the first character at or after `i` that is not a
/// hexadecimal digit, or `s.len()` when there is none.
pub open spec fn first_non_hex(s: Seq<u8>, i: int) -> int
    decreases s.len() - i,
{
    if i < 0 || i >= s.len() {
        s.len() as int
    } else if hex_value(s[i]) is None {
        i
    } else {
        first_non_hex(s, i + 1)
    }
}

/// The byte written by the two hexadecimal digits at `i` and `i + 1`.
pub open spec fn hex_byte(s: Seq<u8>, i: int) -> u8 {
    (hex_value(s[i])->0 * 16 + hex_value(s[i + 1])->0) as u8
}

/// What the bytes of a color string denote: the length is checked first, then
/// the `#`, then the digits from left to right. Alpha is 255 when it is not written.
pub open spec fn color_of(s: Seq<u8>) -> Result<AsepriteColor, ColorParseError> {
    if s.len() != 7 && s.len() != 9 {
        Err(ColorParseError::WrongLength(s.len() as usize))
    } else if s[0] != 35u8 {
        Err(ColorParseError::NoHashtag)
    } else if first_non_hex(s, 1) < s.len() {
        Err(ColorParseError::InvalidHexDigit(first_non_hex(s, 1) as usize))
    } else {
        Ok(
            AsepriteColor {
                red: hex_byte(s, 1),
                green: hex_byte(s, 3),
                blue: hex_byte(s, 5),
                alpha: if s.len() == 9 {
                    hex_byte(s, 7)
                } else {
                    255
                },
            },
        )
    }
}

/// A color string whose length is neither 7 nor 9 is refused with its length;
/// one of the right length that does not begin with `#` is refused for that.
pub proof fn lemma_color_shape_errors(s: Seq<u8>)
    requires
        s.len() <= usize::MAX,
    ensures
        s.len() != 7 && s.len() != 9 ==> color_of(s) == Err::<AsepriteColor, ColorParseError>(
            ColorParseError::WrongLength(s.len() as usize),
        ),
        (s.len() == 7 || s.len() == 9) && s[0] != 35u8 ==> color_of(s) == Err::<
            AsepriteColor,
            ColorParseError,
        >(ColorParseError::NoHashtag),
{
}

fn hex_digit(c: u8) -> (r: Option<u8>)
    ensures
        r == hex_value(c),
{
    if 48u8 <= c && c <= 57u8 {
        Some((c - 48u8) as u8)
    } else if 97u8 <= c && c <= 102u8 {
        Some((c - 97u8 + 10) as u8)
    } else if 65u8 <= c && c <= 70u8 {
        Some((c - 65u8 + 10) as u8)
    } else {
        None
    }
}

impl AsepriteColor {
    /// Parses `#RRGGBB` or `#RRGGBBAA`.
    pub fn parse(value: &str) -> (r: Result<AsepriteColor, ColorParseError>)
        ensures
            r == color_of(value.spec_bytes()),
    {
        let cs = value.as_bytes();
        let n = cs.len();
        if n != 7 && n != 9 {
            return Err(ColorParseError::WrongLength(n));
        }
        if cs[0] != 35u8 {
            return Err(ColorParseError::NoHashtag);
        }
        let mut i: usize = 1;
        while i < n
            invariant
                1 <= i <= n,
                n == cs@.len(),
                n == 7 || n == 9,
                cs@[0] == 35u8,
                cs@ == value.spec_bytes(),
                first_non_hex(cs@, 1) == first_non_hex(cs@, i as int),
                forall|q: int| 1 <= q < i ==> hex_value(#[trigger] cs@[q]) is Some,
            decreases n - i,
        {
            if hex_digit(cs[i]).is_none() {
                assert(first_non_hex(cs@, i as int) == i);
                return Err(ColorParseError::InvalidHexDigit(i));
            }
            i = i + 1;
        }
        assert(first_non_hex(cs@, n as int) == n);
        let red = Self::byte_at(cs, 1);
        let green = Self::byte_at(cs, 3);
        let blue = Self::byte_at(cs, 5);
        let alpha = if n == 9 {
            Self::byte_at(cs, 7)
        } else {
            255
        };
        Ok(AsepriteColor { red, green, blue, alpha })
    }

    fn byte_at(cs: &[u8], i: usize) -> (r: u8)
        requires
            i + 1 < cs@.len(),
            hex_value(cs@[i as int]) is Some,
            hex_value(cs@[i + 1]) is Some,
        ensures
            r == hex_byte(cs@, i as int),
    {
        let hi = hex_digit(cs[i]).unwrap();
        let lo = hex_digit(cs[i + 1]).unwrap();
        hi * 16 + lo
    }
}

} // verus!
