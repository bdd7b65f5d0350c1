use vstd::prelude::*;

use vstd::utf8::encode_utf8;

use crate::color::Rgb;

verus! {

/// Why a color argument could not be read.
#[derive(Clone, Copy, Debug, PartialEq, Eq, Structural)]
pub enum HexParseError {
    /// The argument is not six bytes long.
    WrongLength,
    /// A pair of bytes is not a hexadecimal number.
    InvalidDigit,
}

/// The value of one hexadecimal digit, either case.
pub open spec fn hex_digit(b: u8) -> Option<int> {
    if 48 <= b <= 57 {
        Some(b - 48)
    } else if 97 <= b <= 102 {
        Some(b - 87)
    } else if 65 <= b <= 70 {
        Some(b - 55)
    } else {
        None
    }
}

/// The byte written by two characters: two hex digits, or a plus sign and
/// one digit.
pub open spec fn hex_pair(a: u8, b: u8) -> Option<u8> {
    match (hex_digit(a), hex_digit(b)) {
        (Some(x), Some(y)) => Some((16 * x + y) as u8),
        (None, Some(y)) => if a == 43 {
            Some(y as u8)
        } else {
            None
        },
        _ => None,
    }
}

/// The color written as six hex digits `rrggbb`.
pub open spec fn parse_hex_spec(s: Seq<u8>) -> Result<Rgb, HexParseError> {
    if s.len() != 6 {
        Err(HexParseError::WrongLength)
    } else {
        match (hex_pair(s[0], s[1]), hex_pair(s[2], s[3]), hex_pair(s[4], s[5])) {
            (Some(r), Some(g), Some(b)) => Ok(Rgb { r, g, b }),
            _ => Err(HexParseError::InvalidDigit),
        }
    }
}

fn hex_digit_exec(b: u8) -> (r: Option<u8>)
    ensures
        match hex_digit(b) {
            Some(v) => r == Some(v as u8),
            None => r is None,
        },
{
    if 48 <= b && b <= 57 {
        Some(b - 48)
    } else if 97 <= b && b <= 102 {
        Some(b - 87)
    } else if 65 <= b && b <= 70 {
        Some(b - 55)
    } else {
        None
    }
}

fn hex_pair_exec(a: u8, b: u8) -> (r: Option<u8>)
    ensures
        r == hex_pair(a, b),
{
    match (hex_digit_exec(a), hex_digit_exec(b)) {
        (Some(x), Some(y)) => Some(16 * x + y),
        (None, Some(y)) => if a == 43 {
            Some(y)
        } else {
            None
        },
        _ => None,
    }
}

/// Reads a color written as six hex digits `rrggbb`.
pub fn parse_hex(s: &str) -> (r: Result<Rgb, HexParseError>)
    ensures
        r == parse_hex_spec(encode_utf8(s@)),
{
    let b = s.as_bytes();
    if b.len() != 6 {
        return Err(HexParseError::WrongLength);
    }
    match (hex_pair_exec(b[0], b[1]), hex_pair_exec(b[2], b[3]), hex_pair_exec(b[4], b[5])) {
        (Some(r), Some(g), Some(bl)) => Ok(Rgb { r, g, b: bl }),
        _ => Err(HexParseError::InvalidDigit),
    }
}

/// Reads every argument after the first as a color; the first argument that
/// is not one gives the error.
pub fn args_to_rgbs(args: Vec<String>) -> (r: Result<Vec<Rgb>, HexParseError>)
    ensures
        match r {
            Ok(v) => v@.len() == if args@.len() == 0 {
                0
            } else {
                args@.len() - 1
            } && forall|i: int|
                0 <= i < v@.len() ==> parse_hex_spec(encode_utf8(args@[i + 1]@))
                    == Ok::<Rgb, HexParseError>(#[trigger] v@[i]),
            Err(e) => exists|i: int|
                1 <= i < args@.len() && parse_hex_spec(encode_utf8(args@[i]@)) == Err::<
                    Rgb,
                    HexParseError,
                >(e) && forall|j: int|
                    1 <= j < i ==> #[trigger] parse_hex_spec(encode_utf8(args@[j]@)) is Ok,
        },
{
    let mut out: Vec<Rgb> = Vec::new();
    let mut i: usize = 1;
    while i < args.len()
        invariant
            1 <= i <= args@.len() || (i == 1 && args@.len() == 0),
            out@.len() == i - 1,
            forall|k: int|
                0 <= k < out@.len() ==> parse_hex_spec(encode_utf8(args@[k + 1]@)) == Ok::<
                    Rgb,
                    HexParseError,
                >(#[trigger] out@[k]),
        decreases args@.len() - i,
    {
        match parse_hex(args[i].as_str()) {
            Ok(c) => out.push(c),
            Err(e) => {
                assert forall|j: int| 1 <= j < i implies #[trigger] parse_hex_spec(
                    encode_utf8(args@[j]@),
                ) is Ok by {
                    assert(parse_hex_spec(encode_utf8(args@[(j - 1) + 1]@)) == Ok::<
                        Rgb,
                        HexParseError,
                    >(out@[j - 1]));
                }
                return Err(e);
            },
        }
        i = i + 1;
    }
    Ok(out)
}

} // verus!
