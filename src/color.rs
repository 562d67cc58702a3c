use vstd::prelude::*;

verus! {

/// A colour channel of the RGB model.
#[derive(Clone, Copy, Debug, PartialEq, Eq, Structural)]
pub enum RGB {
    Red,
    Green,
    Blue,
}

/// A colour channel of the CMYK model.
#[derive(Clone, Copy, Debug, PartialEq, Eq, Structural)]
pub enum CMYK {
    Cyan,
    Magenta,
    Yellow,
    Key,
}

/// A colour with 8 bits per channel.
#[derive(Clone, Copy, Debug, PartialEq, Eq, Structural)]
pub struct Rgb8 {
    pub r: u8,
    pub g: u8,
    pub b: u8,
}

/// The value of an ASCII hexadecimal digit, of either case.
pub open spec fn hex_value(c: u8) -> Option<int> {
    if 0x30 <= c <= 0x39 {
        Some(c - 0x30)
    } else if 0x61 <= c <= 0x66 {
        Some(c - 0x61 + 10)
    } else if 0x41 <= c <= 0x46 {
        Some(c - 0x41 + 10)
    } else {
        None
    }
}

/// The lower-case ASCII hexadecimal digit of `v`, which is below 16.
pub open spec fn hex_digit(v: u8) -> u8 {
    if v < 10 {
        (0x30 + v) as u8
    } else {
        (0x61 + v - 10) as u8
    }
}

/// The byte written by the two hexadecimal digits `hi` and `lo`.
pub open spec fn pair_value(hi: u8, lo: u8) -> Option<u8> {
    match (hex_value(hi), hex_value(lo)) {
        (Some(h), Some(l)) => Some((16 * h + l) as u8),
        _ => None,
    }
}

/// The colour written in `s` as `#rrggbb`: the byte at 0 is not read, the
/// next six are hexadecimal digits of either case, and anything after them
/// is ignored.
pub open spec fn parse_color(s: Seq<u8>) -> Option<Rgb8> {
    if s.len() < 7 {
        None
    } else {
        match (pair_value(s[1], s[2]), pair_value(s[3], s[4]), pair_value(s[5], s[6])) {
            (Some(r), Some(g), Some(b)) => Some(Rgb8 { r, g, b }),
            _ => None,
        }
    }
}

/// The two lower-case digits of a byte.
pub open spec fn byte_text(v: u8) -> Seq<u8> {
    seq![hex_digit(v / 16), hex_digit(v % 16)]
}

/// `#rrggbb`, in lower case.
pub open spec fn color_text(c: Rgb8) -> Seq<u8> {
    seq![0x23u8] + byte_text(c.r) + byte_text(c.g) + byte_text(c.b)
}

/// Where a channel's two digits start in `#rrggbb`.
pub open spec fn channel_start(ch: RGB) -> int {
    match ch {
        RGB::Red => 1,
        RGB::Green => 3,
        RGB::Blue => 5,
    }
}

fn hex_value_of(c: u8) -> (r: Option<u8>)
    ensures
        match hex_value(c) {
            Some(v) => r == Some(v as u8),
            None => r is None,
        },
{
    if 0x30 <= c && c <= 0x39 {
        Some(c - 0x30)
    } else if 0x61 <= c && c <= 0x66 {
        Some(c - 0x61 + 10)
    } else if 0x41 <= c && c <= 0x46 {
        Some(c - 0x41 + 10)
    } else {
        None
    }
}

fn hex_digit_of(v: u8) -> (r: u8)
    requires
        v < 16,
    ensures
        r == hex_digit(v),
{
    if v < 10 {
        0x30 + v
    } else {
        0x61 + v - 10
    }
}

fn pair_value_of(hi: u8, lo: u8) -> (r: Option<u8>)
    ensures
        r == pair_value(hi, lo),
{
    match (hex_value_of(hi), hex_value_of(lo)) {
        (Some(h), Some(l)) => Some(16 * h + l),
        _ => None,
    }
}

/// Reads a colour written as `#rrggbb`; `None` when the text is shorter than
/// seven bytes or one of the six digits is not hexadecimal.
pub fn parse_hex_color(s: &[u8]) -> (r: Option<Rgb8>)
    ensures
        r == parse_color(s@),
{
    if s.len() < 7 {
        return None;
    }
    match (pair_value_of(s[1], s[2]), pair_value_of(s[3], s[4]), pair_value_of(s[5], s[6])) {
        (Some(r), Some(g), Some(b)) => Some(Rgb8 { r, g, b }),
        _ => None,
    }
}

/// Writes a colour as `#rrggbb`, in lower case.
pub fn hex_color(c: Rgb8) -> (r: Vec<u8>)
    ensures
        r@ == color_text(c),
{
    let mut r: Vec<u8> = Vec::new();
    r.push(0x23u8);
    r.push(hex_digit_of(c.r / 16));
    r.push(hex_digit_of(c.r % 16));
    r.push(hex_digit_of(c.g / 16));
    r.push(hex_digit_of(c.g % 16));
    r.push(hex_digit_of(c.b / 16));
    r.push(hex_digit_of(c.b % 16));
    assert(r@ =~= color_text(c));
    r
}

/// Writes the two digits of one channel into a colour text, in place; the
/// other bytes stay as they were.
pub fn set_channel_text(text: &mut Vec<u8>, channel: RGB, value: u8)
    requires
        old(text)@.len() >= 7,
    ensures
        final(text)@ == old(text)@.update(channel_start(channel), hex_digit(value / 16)).update(
            channel_start(channel) + 1,
            hex_digit(value % 16),
        ),
{
    let start: usize = match channel {
        RGB::Red => 1,
        RGB::Green => 3,
        RGB::Blue => 5,
    };
    text.set(start, hex_digit_of(value / 16));
    text.set(start + 1, hex_digit_of(value % 16));
}

/// Reading back a written colour gives the colour.
pub proof fn hex_color_round_trip(c: Rgb8)
    ensures
        parse_color(color_text(c)) == Some(c),
{
    let t = color_text(c);
    assert(t.len() == 7);
    assert forall|v: u8| pair_value(#[trigger] hex_digit(v / 16), hex_digit(v % 16)) == Some(v) by {
        assert(v == 16 * (v / 16) + v % 16);
    }
    assert(t[1] == hex_digit(c.r / 16) && t[2] == hex_digit(c.r % 16));
    assert(t[3] == hex_digit(c.g / 16) && t[4] == hex_digit(c.g % 16));
    assert(t[5] == hex_digit(c.b / 16) && t[6] == hex_digit(c.b % 16));
}

/// Writing a channel into a readable colour text changes that channel of the
/// colour read back to the value written, and no other.
pub proof fn set_channel_reads_back(text: Seq<u8>, channel: RGB, value: u8)
    requires
        parse_color(text) is Some,
    ensures
        ({
            let after = text.update(channel_start(channel), hex_digit(value / 16)).update(
                channel_start(channel) + 1,
                hex_digit(value % 16),
            );
            let before = parse_color(text)->0;
            parse_color(after) == Some(
                match channel {
                    RGB::Red => Rgb8 { r: value, ..before },
                    RGB::Green => Rgb8 { g: value, ..before },
                    RGB::Blue => Rgb8 { b: value, ..before },
                },
            )
        }),
{
    assert(pair_value(hex_digit(value / 16), hex_digit(value % 16)) == Some(value)) by {
        assert(value == 16 * (value / 16) + value % 16);
    }
}

} // verus!
