//! RGBA colors with one byte per channel, and conversion to and from
//! `#rgb` / `#rrggbb` / `#rrggbbaa` hexadecimal notation.

use vstd::prelude::*;
use vstd::string::StrSliceExecFns;
use vstd::string::StringExecFns;

verus! {

/// A color with red, green, blue and alpha channels, each stored as a byte
/// (`255` means fully opaque).
#[derive(Clone, Copy, Debug, PartialEq, Eq, Structural, Hash)]
pub struct Color {
    pub r: u8,
    pub g: u8,
    pub b: u8,
    pub a: u8,
}

/// The error returned when a string is not a well-formed hexadecimal color.
#[derive(Clone, Copy, Debug, PartialEq, Eq, Structural)]
pub struct ParseColorError {}

/// True for the characters that may appear in a hexadecimal number:
/// `0`-`9`, `a`-`f` and `A`-`F`.
pub open spec fn is_hex_digit(c: char) -> bool {
    ||| '0' as u32 <= c as u32 && c as u32 <= '9' as u32
    ||| 'a' as u32 <= c as u32 && c as u32 <= 'f' as u32
    ||| 'A' as u32 <= c as u32 && c as u32 <= 'F' as u32
}

/// The numeric value of a hexadecimal digit character.
pub open spec fn hex_digit_value(c: char) -> int {
    if '0' as u32 <= c as u32 && c as u32 <= '9' as u32 {
        c as u32 - '0' as u32
    } else if 'a' as u32 <= c as u32 && c as u32 <= 'f' as u32 {
        10 + c as u32 - 'a' as u32
    } else {
        10 + c as u32 - 'A' as u32
    }
}

/// The lower-case digit character for a value below sixteen.
pub open spec fn digit_char(v: int) -> char {
    if v == 0 {
        '0'
    } else if v == 1 {
        '1'
    } else if v == 2 {
        '2'
    } else if v == 3 {
        '3'
    } else if v == 4 {
        '4'
    } else if v == 5 {
        '5'
    } else if v == 6 {
        '6'
    } else if v == 7 {
        '7'
    } else if v == 8 {
        '8'
    } else if v == 9 {
        '9'
    } else if v == 10 {
        'a'
    } else if v == 11 {
        'b'
    } else if v == 12 {
        'c'
    } else if v == 13 {
        'd'
    } else if v == 14 {
        'e'
    } else {
        'f'
    }
}

/// The value of the two-digit hexadecimal number at positions `i` and
/// `i + 1` of `s`.
pub open spec fn hex_pair_value(s: Seq<char>, i: int) -> int {
    16 * hex_digit_value(s[i]) + hex_digit_value(s[i + 1])
}

/// True when every character of `s` in the index interval `[lo, hi)` is a
/// hexadecimal digit.
pub open spec fn hex_digits_from(s: Seq<char>, lo: int, hi: int) -> bool {
    forall|i: int| lo <= i < hi ==> is_hex_digit(#[trigger] s[i])
}

/// The color denoted by a hexadecimal color string, or `None` when the
/// string is not one. The accepted forms are `#rgb` (each digit doubled,
/// opaque), `#rrggbb` (opaque) and `#rrggbbaa`.
pub open spec fn parse_hex(s: Seq<char>) -> Option<Color> {
    if s.len() == 9 && s[0] == '#' && hex_digits_from(s, 1, 9) {
        Some(
            Color {
                r: hex_pair_value(s, 1) as u8,
                g: hex_pair_value(s, 3) as u8,
                b: hex_pair_value(s, 5) as u8,
                a: hex_pair_value(s, 7) as u8,
            },
        )
    } else if s.len() == 7 && s[0] == '#' && hex_digits_from(s, 1, 7) {
        Some(
            Color {
                r: hex_pair_value(s, 1) as u8,
                g: hex_pair_value(s, 3) as u8,
                b: hex_pair_value(s, 5) as u8,
                a: 255,
            },
        )
    } else if s.len() == 4 && s[0] == '#' && hex_digits_from(s, 1, 4) {
        Some(
            Color {
                r: (17 * hex_digit_value(s[1])) as u8,
                g: (17 * hex_digit_value(s[2])) as u8,
                b: (17 * hex_digit_value(s[3])) as u8,
                a: 255,
            },
        )
    } else {
        None
    }
}

/// The `#rrggbbaa` rendering of a color, with lower-case digits.
pub open spec fn hex_string(c: Color) -> Seq<char> {
    seq![
        '#',
        digit_char(c.r as int / 16),
        digit_char(c.r as int % 16),
        digit_char(c.g as int / 16),
        digit_char(c.g as int % 16),
        digit_char(c.b as int / 16),
        digit_char(c.b as int % 16),
        digit_char(c.a as int / 16),
        digit_char(c.a as int % 16),
    ]
}

/// The decimal rendering of a non-negative number, most significant digit
/// first.
pub open spec fn dec_string(n: int) -> Seq<char>
    decreases n,
{
    if n < 10 {
        seq![digit_char(n)]
    } else {
        dec_string(n / 10).push(digit_char(n % 10))
    }
}

/// The `rgba(r,g,b,a)` rendering of a color, with every channel written as
/// its decimal byte value.
pub open spec fn rgba_string(c: Color) -> Seq<char> {
    "rgba("@ + dec_string(c.r as int) + ","@ + dec_string(c.g as int) + ","@ + dec_string(
        c.b as int,
    ) + ","@ + dec_string(c.a as int) + ")"@
}

/// The numeric value of a hexadecimal digit character, or `None` for any
/// other character.
fn hex_value(c: char) -> (v: Option<u8>)
    ensures
        match v {
            Some(x) => is_hex_digit(c) && x == hex_digit_value(c) && x < 16,
            None => !is_hex_digit(c),
        },
{
    let u = c as u32;
    if '0' as u32 <= u && u <= '9' as u32 {
        Some((u - '0' as u32) as u8)
    } else if 'a' as u32 <= u && u <= 'f' as u32 {
        Some((10 + u - 'a' as u32) as u8)
    } else if 'A' as u32 <= u && u <= 'F' as u32 {
        Some((10 + u - 'A' as u32) as u8)
    } else {
        None
    }
}

/// The value of the two hexadecimal digits at positions `i` and `i + 1` of
/// `s`, or `None` when either character is not a digit.
fn hex_pair(s: &str, i: usize) -> (v: Option<u8>)
    requires
        i + 1 < s@.len(),
        s@.len() <= usize::MAX,
    ensures
        match v {
            Some(x) => is_hex_digit(s@[i as int]) && is_hex_digit(s@[i + 1]) && x
                == hex_pair_value(s@, i as int),
            None => !(is_hex_digit(s@[i as int]) && is_hex_digit(s@[i + 1])),
        },
{
    let hi = hex_value(s.get_char(i));
    let lo = hex_value(s.get_char(i + 1));
    match (hi, lo) {
        (Some(h), Some(l)) => Some(16 * h + l),
        _ => None,
    }
}

/// The one-character string for a value below sixteen, in lower case.
fn digit_str(v: u8) -> (s: &'static str)
    requires
        v < 16,
    ensures
        s@ == seq![digit_char(v as int)],
{
    match v {
        0 => {
            proof {
                reveal_strlit("0");
                assert("0"@ =~= seq![digit_char(0)]);
            }
            "0"
        },
        1 => {
            proof {
                reveal_strlit("1");
                assert("1"@ =~= seq![digit_char(1)]);
            }
            "1"
        },
        2 => {
            proof {
                reveal_strlit("2");
                assert("2"@ =~= seq![digit_char(2)]);
            }
            "2"
        },
        3 => {
            proof {
                reveal_strlit("3");
                assert("3"@ =~= seq![digit_char(3)]);
            }
            "3"
        },
        4 => {
            proof {
                reveal_strlit("4");
                assert("4"@ =~= seq![digit_char(4)]);
            }
            "4"
        },
        5 => {
            proof {
                reveal_strlit("5");
                assert("5"@ =~= seq![digit_char(5)]);
            }
            "5"
        },
        6 => {
            proof {
                reveal_strlit("6");
                assert("6"@ =~= seq![digit_char(6)]);
            }
            "6"
        },
        7 => {
            proof {
                reveal_strlit("7");
                assert("7"@ =~= seq![digit_char(7)]);
            }
            "7"
        },
        8 => {
            proof {
                reveal_strlit("8");
                assert("8"@ =~= seq![digit_char(8)]);
            }
            "8"
        },
        9 => {
            proof {
                reveal_strlit("9");
                assert("9"@ =~= seq![digit_char(9)]);
            }
            "9"
        },
        10 => {
            proof {
                reveal_strlit("a");
                assert("a"@ =~= seq![digit_char(10)]);
            }
            "a"
        },
        11 => {
            proof {
                reveal_strlit("b");
                assert("b"@ =~= seq![digit_char(11)]);
            }
            "b"
        },
        12 => {
            proof {
                reveal_strlit("c");
                assert("c"@ =~= seq![digit_char(12)]);
            }
            "c"
        },
        13 => {
            proof {
                reveal_strlit("d");
                assert("d"@ =~= seq![digit_char(13)]);
            }
            "d"
        },
        14 => {
            proof {
                reveal_strlit("e");
                assert("e"@ =~= seq![digit_char(14)]);
            }
            "e"
        },
        _ => {
            proof {
                reveal_strlit("f");
                assert("f"@ =~= seq![digit_char(15)]);
            }
            "f"
        },
    }
}

/// The decimal rendering of a byte, one to three digits long.
fn byte_dec_str(n: u8) -> (s: String)
    ensures
        s@ == dec_string(n as int),
{
    proof {
        reveal_with_fuel(dec_string, 3);
    }
    if n < 10 {
        String::from_str(digit_str(n))
    } else if n < 100 {
        let mut s = String::from_str(digit_str(n / 10));
        s.append(digit_str(n % 10));
        proof {
            assert(s@ =~= dec_string(n as int));
        }
        s
    } else {
        let mut s = String::from_str(digit_str(n / 100));
        s.append(digit_str((n / 10) % 10));
        s.append(digit_str(n % 10));
        proof {
            assert(n as int / 10 / 10 == n as int / 100);
            assert(s@ =~= dec_string(n as int));
        }
        s
    }
}

impl Color {
    /// The `rgba(r,g,b,a)` rendering of this color, every channel as its
    /// decimal byte value.
    pub fn to_string(&self) -> (s: String)
        ensures
            s@ == rgba_string(*self),
    {
        let mut s = String::from_str("rgba(");
        s.append(byte_dec_str(self.r).as_str());
        s.append(",");
        s.append(byte_dec_str(self.g).as_str());
        s.append(",");
        s.append(byte_dec_str(self.b).as_str());
        s.append(",");
        s.append(byte_dec_str(self.a).as_str());
        s.append(")");
        proof {
            assert(s@ =~= rgba_string(*self));
        }
        s
    }

    /// The `rgba(...)` rendering of an optional color, `"none"` when it is
    /// absent.
    pub fn rgba(color: &Option<Color>) -> (s: String)
        ensures
            match color {
                Some(c) => s@ == rgba_string(*c),
                None => s@ == "none"@,
            },
    {
        match color {
            Some(c) => c.to_string(),
            None => String::from_str("none"),
        }
    }

    /// The `#rrggbbaa` rendering of this color, with lower-case digits.
    pub fn to_hex(&self) -> (s: String)
        ensures
            s@ == hex_string(*self),
    {
        let mut s = String::from_str("#");
        s.append(digit_str(self.r / 16));
        s.append(digit_str(self.r % 16));
        s.append(digit_str(self.g / 16));
        s.append(digit_str(self.g % 16));
        s.append(digit_str(self.b / 16));
        s.append(digit_str(self.b % 16));
        s.append(digit_str(self.a / 16));
        s.append(digit_str(self.a % 16));
        proof {
            reveal_strlit("#");
            assert(s@ =~= hex_string(*self));
        }
        s
    }

    /// Parses a `#rgb`, `#rrggbb` or `#rrggbbaa` string. Equivalent to
    /// `"#fff".parse()`.
    pub fn from_hex(hex: &str) -> (r: Result<Color, ParseColorError>)
        ensures
            r == match parse_hex(hex@) {
                Some(c) => Ok::<Color, ParseColorError>(c),
                None => Err::<Color, ParseColorError>(ParseColorError {}),
            },
    {
        let n = hex.unicode_len();
        if n == 0 || hex.get_char(0) != '#' {
            return Err(ParseColorError {});
        }
        if n == 9 {
            match (hex_pair(hex, 1), hex_pair(hex, 3), hex_pair(hex, 5), hex_pair(hex, 7)) {
                (Some(r), Some(g), Some(b), Some(a)) => {
                    proof {
                        assert(hex_digits_from(hex@, 1, 9));
                    }
                    Ok(Color { r, g, b, a })
                },
                _ => Err(ParseColorError {}),
            }
        } else if n == 7 {
            match (hex_pair(hex, 1), hex_pair(hex, 3), hex_pair(hex, 5)) {
                (Some(r), Some(g), Some(b)) => {
                    proof {
                        assert(hex_digits_from(hex@, 1, 7));
                    }
                    Ok(Color { r, g, b, a: 255 })
                },
                _ => Err(ParseColorError {}),
            }
        } else if n == 4 {
            match (
                hex_value(hex.get_char(1)),
                hex_value(hex.get_char(2)),
                hex_value(hex.get_char(3)),
            ) {
                (Some(r), Some(g), Some(b)) => {
                    proof {
                        assert(hex_digits_from(hex@, 1, 4));
                    }
                    Ok(Color { r: 17 * r, g: 17 * g, b: 17 * b, a: 255 })
                },
                _ => Err(ParseColorError {}),
            }
        } else {
            Err(ParseColorError {})
        }
    }
}

impl Default for Color {
    /// The default color is opaque black.
    fn default() -> (c: Color)
        ensures
            c == (Color { r: 0, g: 0, b: 0, a: 255 }),
    {
        Color { r: 0, g: 0, b: 0, a: 255 }
    }
}

impl core::str::FromStr for Color {
    type Err = ParseColorError;

    fn from_str(hex: &str) -> (r: Result<Color, ParseColorError>) {
        Color::from_hex(hex)
    }
}

impl ParseColorError {
    /// A description of the accepted color forms.
    pub fn message(&self) -> (s: String)
        ensures
            s@ == "Only #rgb, #rrggbb or #rrggbbaa are supported"@,
    {
        String::from_str("Only #rgb, #rrggbb or #rrggbbaa are supported")
    }
}

/// A lower-case digit stands for its own value: writing a value below
/// sixteen as a digit character and reading the character back yields the
/// value.
pub proof fn lemma_digit_char_value(v: int)
    requires
        0 <= v < 16,
    ensures
        is_hex_digit(digit_char(v)),
        hex_digit_value(digit_char(v)) == v,
{
}

/// Hexadecimal round trip: rendering any color with `to_hex` and parsing
/// the rendering with `from_hex` yields the color again.
pub proof fn lemma_hex_round_trip(c: Color)
    ensures
        parse_hex(hex_string(c)) == Some(c),
{
    let s = hex_string(c);
    lemma_digit_char_value(c.r as int / 16);
    lemma_digit_char_value(c.r as int % 16);
    lemma_digit_char_value(c.g as int / 16);
    lemma_digit_char_value(c.g as int % 16);
    lemma_digit_char_value(c.b as int / 16);
    lemma_digit_char_value(c.b as int % 16);
    lemma_digit_char_value(c.a as int / 16);
    lemma_digit_char_value(c.a as int % 16);
    assert(hex_digits_from(s, 1, 9));
    assert(hex_pair_value(s, 1) == c.r as int);
    assert(hex_pair_value(s, 3) == c.g as int);
    assert(hex_pair_value(s, 5) == c.b as int);
    assert(hex_pair_value(s, 7) == c.a as int);
}

} // verus!
