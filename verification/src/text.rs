//! Text conversions used around the transport: bytes to text and back,
//! and escaping of control characters in inbound command text.

use vstd::prelude::*;
use vstd::string::StringExecFns;
use vstd::utf8::{decode_utf8, encode_utf8, valid_utf8};

verus! {

pub assume_specification[ String::push ](s: &mut String, ch: char)
    ensures
        final(s)@ == old(s)@.push(ch),
;

/// The characters that a byte sequence reads as when every invalid
/// encoding in it is replaced. The result depends on the bytes alone.
pub uninterp spec fn lossy_chars(b: Seq<u8>) -> Seq<char>;

/// Reads bytes as text, replacing invalid encodings.
///
/// Relies on `String::from_utf8_lossy`: the result depends on the bytes
/// alone, and validly encoded bytes read back as exactly the characters
/// they encode.
#[verifier::external_body]
pub fn convert_bytes_to_string(data: &[u8]) -> (r: String)
    ensures
        r@ == lossy_chars(data@),
        valid_utf8(data@) ==> r@ == decode_utf8(data@),
{
    String::from_utf8_lossy(data).into_owned()
}

/// The bytes that encode a string's characters.
pub fn convert_str_to_bytes(string: &str) -> (r: Vec<u8>)
    ensures
        r@ == encode_utf8(string@),
{
    vstd::slice::slice_to_vec(string.as_bytes())
}

/// The lower-case hexadecimal digit for a value below sixteen.
pub open spec fn hex_digit_char(v: u32) -> char
    recommends
        v < 16,
{
    if v < 10 {
        ((v + 48) as u8) as char
    } else {
        ((v + 87) as u8) as char
    }
}

/// The lower-case hexadecimal digits of a value, most significant first,
/// without leading zeroes.
pub open spec fn hex_chars(v: u32) -> Seq<char>
    decreases v,
{
    if v < 16 {
        seq![hex_digit_char(v)]
    } else {
        hex_chars(v / 16).push(hex_digit_char(v % 16))
    }
}

/// The escape a character is replaced with: a backslash, the letter `u`,
/// and the character's value in lower-case hexadecimal, padded to at
/// least four digits.
pub open spec fn escape_seq(c: char) -> Seq<char> {
    let v = c as u32;
    if v < 0x10000 {
        seq![
            '\\',
            'u',
            hex_digit_char((v / 4096) % 16),
            hex_digit_char((v / 256) % 16),
            hex_digit_char((v / 16) % 16),
            hex_digit_char(v % 16),
        ]
    } else {
        seq!['\\', 'u'] + hex_chars(v)
    }
}

/// A character's replacement in sanitized text: control characters are
/// escaped, every other character stands as it is.
pub open spec fn sanitize_one(c: char) -> Seq<char> {
    if c as u32 <= 0x1F {
        escape_seq(c)
    } else {
        seq![c]
    }
}

/// The sanitized form of a character sequence: each character replaced by
/// its [`sanitize_one`] expansion, in order.
pub open spec fn sanitized(s: Seq<char>) -> Seq<char>
    decreases s.len(),
{
    if s.len() == 0 {
        Seq::empty()
    } else {
        sanitized(s.drop_last()) + sanitize_one(s.last())
    }
}

/// Computes the lower-case hexadecimal digit for a value below sixteen.
fn hex_digit(v: u32) -> (c: char)
    requires
        v < 16,
    ensures
        c == hex_digit_char(v),
{
    if v < 10 {
        ((v as u8) + 48) as char
    } else {
        ((v as u8) + 87) as char
    }
}

/// Appends the hexadecimal digits of a value, most significant first.
fn push_hex(s: &mut String, v: u32)
    ensures
        final(s)@ == old(s)@ + hex_chars(v),
    decreases v,
{
    if v < 16 {
        s.push(hex_digit(v));
        proof {
            assert(final(s)@ =~= old(s)@ + hex_chars(v));
        }
    } else {
        push_hex(s, v / 16);
        s.push(hex_digit(v % 16));
        proof {
            assert(final(s)@ =~= old(s)@ + hex_chars(v));
        }
    }
}

/// The escape of a character: a backslash, the letter `u`, and the
/// character's value in lower-case hexadecimal, at least four digits.
pub fn escape_control_character(c: char) -> (r: String)
    ensures
        r@ == escape_seq(c),
{
    let v = c as u32;
    let mut s = String::new();
    s.push('\\');
    s.push('u');
    if v < 0x10000 {
        s.push(hex_digit((v / 4096) % 16));
        s.push(hex_digit((v / 256) % 16));
        s.push(hex_digit((v / 16) % 16));
        s.push(hex_digit(v % 16));
        proof {
            assert(s@ =~= escape_seq(c));
        }
    } else {
        push_hex(&mut s, v);
        proof {
            assert(s@ =~= escape_seq(c));
        }
    }
    s
}

/// Replaces every control character of the input with its escape and
/// keeps every other character as it is.
pub fn sanitize_input_string(input: &str) -> (r: String)
    ensures
        r@ == sanitized(input@),
{
    let mut out = String::new();
    for c in it: input.chars()
        invariant
            it.seq() == input@,
            out@ == sanitized(it.seq().take(it.index() as int)),
    {
        if (c as u32) <= 0x1F {
            let esc = escape_control_character(c);
            out.append(esc.as_str());
        } else {
            out.push(c);
        }
        proof {
            let i = it.index() as int;
            let done = it.seq().take(i + 1);
            assert(done.drop_last() =~= it.seq().take(i));
            assert(out@ =~= sanitized(done));
        }
    }
    proof {
        assert(input@.take(input@.len() as int) =~= input@);
    }
    out
}

} // verus!
