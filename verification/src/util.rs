//! Colours given as hexadecimal text.

use vstd::prelude::*;
use vstd::string::*;

verus! {

/// The error of the `hex` crate's decoder. Nothing of it is read here but
/// its text.
#[verifier::external_type_specification]
#[verifier::external_body]
pub struct ExFromHexError(hex::FromHexError);

/// Whether `c` is a hexadecimal digit, in either case.
pub open spec fn is_hex_digit(c: char) -> bool {
    ('0' <= c <= '9') || ('a' <= c <= 'f') || ('A' <= c <= 'F')
}

/// The value of the hexadecimal digit `c`.
pub open spec fn hex_value(c: char) -> int {
    if '0' <= c <= '9' {
        c as int - '0' as int
    } else if 'a' <= c <= 'f' {
        c as int - 'a' as int + 10
    } else {
        c as int - 'A' as int + 10
    }
}

/// Whether the text is an even number of hexadecimal digits and nothing
/// else.
pub open spec fn decodable(s: Seq<char>) -> bool {
    s.len() % 2 == 0 && forall|i: int| 0 <= i < s.len() ==> is_hex_digit(#[trigger] s[i])
}

/// Byte `i` of the decoded text: the digits at `2 * i` and `2 * i + 1`, the
/// first of them the high one.
pub open spec fn decoded_byte(s: Seq<char>, i: int) -> u8 {
    (hex_value(s[2 * i]) * 16 + hex_value(s[2 * i + 1])) as u8
}

/// Whether the text names a colour: at least three bytes in hexadecimal.
pub open spec fn is_colour(s: Seq<char>) -> bool {
    s.len() >= 6 && decodable(s)
}

/// The message for a text that names no colour.
pub open spec fn colour_error(s: Seq<char>) -> Seq<char> {
    "Error converting hex '"@ + s + "' to decimal, using default"@
}

/// The error that `hex::decode` gives for a text that it does not decode:
/// which kind it is, and for a character that is no digit, which one and
/// where.
pub uninterp spec fn decode_error(text: Seq<char>) -> hex::FromHexError;

/// The `Debug` text of a decoder error.
pub uninterp spec fn error_text(error: hex::FromHexError) -> Seq<char>;

/// `hex::decode`: the bytes that the text spells in hexadecimal, two digits
/// to the byte, upper and lower case alike. It fails exactly on a text of
/// odd length and on one that holds anything but hexadecimal digits, and
/// the text alone decides with which error.
#[verifier::external_body]
fn decode(text: &str) -> (r: Result<Vec<u8>, hex::FromHexError>)
    ensures
        r is Ok <==> decodable(text@),
        r matches Ok(bytes) ==> bytes@.len() == text@.len() / 2 && forall|i: int|
            0 <= i < bytes@.len() ==> #[trigger] bytes@[i] == decoded_byte(text@, i),
        r matches Err(error) ==> error == decode_error(text@),
{
    hex::decode(text)
}

/// The `Debug` text of a decoder error, as `format!` gives it: the error
/// alone decides it.
#[verifier::external_body]
fn describe(error: &hex::FromHexError) -> (text: String)
    ensures
        text@ == error_text(*error),
{
    format!("{:?}", error)
}

/// The first byte that `hexbyte` spells in hexadecimal, or the `Debug` text
/// of the decoder's error.
pub fn hex_to_u8(hexbyte: &str) -> (r: Result<u8, String>)
    requires
        hexbyte@.len() > 0,
    ensures
        r is Ok <==> decodable(hexbyte@),
        r matches Ok(byte) ==> byte == decoded_byte(hexbyte@, 0),
        r matches Err(message) ==> message@ == error_text(decode_error(hexbyte@)),
{
    match decode(hexbyte) {
        Ok(val) => Ok(val[0]),
        Err(e) => Err(describe(&e)),
    }
}

/// The colour that `hexcol` names: its first three bytes as red, green and
/// blue. A text that is not at least six hexadecimal digits, or that has an
/// odd number of them, names no colour.
pub fn hex_to_col(hexcol: &str) -> (r: Result<(u8, u8, u8), String>)
    ensures
        r is Ok <==> is_colour(hexcol@),
        r matches Ok(colour) ==> colour == (
            decoded_byte(hexcol@, 0),
            decoded_byte(hexcol@, 1),
            decoded_byte(hexcol@, 2),
        ),
        r matches Err(message) ==> message@ == colour_error(hexcol@),
{
    let mut message = String::from_str("Error converting hex '");
    message.append(hexcol);
    message.append("' to decimal, using default");
    if !hexcol.is_ascii() {
        assert(!decodable(hexcol@)) by {
            if decodable(hexcol@) {
                assert forall|i: int| 0 <= i < hexcol@.len() implies '\0' <= #[trigger] hexcol@[i]
                    <= '\u{7f}' by {
                    assert(is_hex_digit(hexcol@[i]));
                }
            }
        }
        return Err(message);
    }
    let len: usize = hexcol.unicode_len();
    if len < 6 {
        return Err(message);
    }
    let red = hexcol.substring_ascii(0, 2);
    let green = hexcol.substring_ascii(2, 4);
    let blue = hexcol.substring_ascii(4, len);
    let r = hex_to_u8(red);
    let g = hex_to_u8(green);
    let b = hex_to_u8(blue);
    proof {
        let s = hexcol@;
        assert(red@[0] == s[0] && red@[1] == s[1]);
        assert(green@[0] == s[2] && green@[1] == s[3]);
        assert(blue@[0] == s[4] && blue@[1] == s[5]);
        if decodable(s) {
            assert forall|i: int| 0 <= i < blue@.len() implies is_hex_digit(#[trigger] blue@[i]) by {
                assert(blue@[i] == s[i + 4]);
            }
            assert(is_hex_digit(s[0]) && is_hex_digit(s[1]) && is_hex_digit(s[2]) && is_hex_digit(
                s[3],
            ));
        }
        if decodable(red@) && decodable(green@) && decodable(blue@) {
            assert forall|i: int| 0 <= i < s.len() implies is_hex_digit(#[trigger] s[i]) by {
                if i < 2 {
                    assert(s[i] == red@[i]);
                } else if i < 4 {
                    assert(s[i] == green@[i - 2]);
                } else {
                    assert(s[i] == blue@[i - 4]);
                }
            }
        }
    }
    match (r, g, b) {
        (Ok(r), Ok(g), Ok(b)) => Ok((r, g, b)),
        _ => Err(message),
    }
}

} // verus!
