//! Every outside function that the library calls, each with the contract that is taken on trust.

use crate::driver::upload::{may_be_named, name_view};
use crate::text::integer_text;
use base64::Engine;
use vstd::prelude::*;

verus! {

/// `String::push` appends one character at the end of a string.
pub assume_specification[ String::push ](s: &mut String, c: char)
    ensures
        final(s)@ == old(s)@.push(c),
;

/// The lower-case hexadecimal digit of a value below sixteen.
pub open spec fn hex_digit(d: nat) -> char {
    if d < 10 {
        (48 + d) as char
    } else {
        (87 + d) as char
    }
}

/// How one character is written inside a JSON string.
pub open spec fn json_escape(c: char) -> Seq<char> {
    if c == '"' || c == '\\' {
        seq!['\\', c]
    } else if c == '\u{8}' {
        seq!['\\', 'b']
    } else if c == '\t' {
        seq!['\\', 't']
    } else if c == '\n' {
        seq!['\\', 'n']
    } else if c == '\u{c}' {
        seq!['\\', 'f']
    } else if c == '\r' {
        seq!['\\', 'r']
    } else if (c as nat) < 32 {
        seq!['\\', 'u', '0', '0', hex_digit((c as nat) / 16), hex_digit((c as nat) % 16)]
    } else {
        seq![c]
    }
}

/// The characters of a JSON string between its quotation marks.
pub open spec fn json_escaped(s: Seq<char>) -> Seq<char>
    decreases s.len(),
{
    if s.len() == 0 {
        seq![]
    } else {
        json_escaped(s.drop_last()) + json_escape(s.last())
    }
}

/// A string as a JSON document: the escaped characters in quotation marks.
pub open spec fn json_quoted(s: Seq<char>) -> Seq<char> {
    seq!['"'] + json_escaped(s) + seq!['"']
}

/// `serde_json::to_string` of a string slice. It writes the slice between quotation marks,
/// with a backslash before a quotation mark or a backslash, with the short escapes for
/// backspace, tab, line feed, form feed and carriage return, with `\u00xx` for the other
/// characters below the space, and with every other character as it is. It never fails there.
#[verifier::external_body]
pub(crate) fn quote_json(s: &str) -> (r: String)
    ensures
        r@ == json_quoted(s@),
{
    serde_json::to_string(s).unwrap()
}

/// The standard Base64 digit of a value below sixty-four.
pub open spec fn base64_digit(v: nat) -> char {
    if v < 26 {
        (65 + v) as char
    } else if v < 52 {
        (71 + v) as char
    } else if v < 62 {
        (v - 4) as char
    } else if v == 62 {
        '+'
    } else {
        '/'
    }
}

/// The byte at `i`, or zero behind the end.
pub open spec fn byte_or_zero(data: Seq<u8>, i: int) -> nat {
    if 0 <= i < data.len() {
        data[i] as nat
    } else {
        0
    }
}

/// The four characters for the three bytes from `i` on, padded with `=` behind the end.
pub open spec fn base64_group(data: Seq<u8>, i: int) -> Seq<char> {
    let a = byte_or_zero(data, i);
    let b = byte_or_zero(data, i + 1);
    let c = byte_or_zero(data, i + 2);
    seq![
        base64_digit(a / 4),
        base64_digit(a % 4 * 16 + b / 16),
        if i + 1 < data.len() {
            base64_digit(b % 16 * 4 + c / 64)
        } else {
            '='
        },
        if i + 2 < data.len() {
            base64_digit(c % 64)
        } else {
            '='
        },
    ]
}

/// The Base64 text of the bytes from `i` on.
pub open spec fn base64_from(data: Seq<u8>, i: nat) -> Seq<char>
    decreases data.len() + 3 - i,
{
    if i >= data.len() {
        seq![]
    } else {
        base64_group(data, i as int) + base64_from(data, i + 3)
    }
}

/// `Engine::encode` of `base64::engine::general_purpose::STANDARD`: the standard alphabet,
/// four characters for every three bytes, the last group padded with `=`. The length of the
/// text fits in `usize` for every slice, as a slice has at most `isize::MAX` bytes.
#[verifier::external_body]
pub(crate) fn encode_base64(data: &[u8]) -> (r: String)
    ensures
        r@ == base64_from(data@, 0),
{
    base64::engine::general_purpose::STANDARD.encode(data)
}

/// Whether a character is a lower-case hexadecimal digit.
pub open spec fn is_hex_digit(c: char) -> bool {
    '0' <= c <= '9' || 'a' <= c <= 'f'
}

/// The shape of a random UUID in its hyphenated form: thirty-six characters, hyphens at four
/// places, the version digit `4`, the variant digit `8`, `9`, `a` or `b`, and lower-case
/// hexadecimal digits elsewhere.
pub open spec fn is_uuid(s: Seq<char>) -> bool {
    &&& s.len() == 36
    &&& s[14] == '4'
    &&& (s[19] == '8' || s[19] == '9' || s[19] == 'a' || s[19] == 'b')
    &&& forall|i: int|
        0 <= i < 36 ==> if i == 8 || i == 13 || i == 18 || i == 23 {
            #[trigger] s[i] == '-'
        } else {
            is_hex_digit(s[i])
        }
}

/// `uuid::Uuid::new_v4`, written by `Uuid`'s `Display`. Which UUID comes is left to chance;
/// its shape is not.
#[verifier::external_body]
pub(crate) fn new_uuid() -> (r: String)
    ensures
        is_uuid(r@),
{
    uuid::Uuid::new_v4().to_string()
}

/// `std::path::Path::file_name` of a path, as text: the last of the path's components, where it is
/// a normal one. How a path is taken apart depends on the system. Where a path is read alike on
/// Unix and on Windows, slashes part its components, empty and single-dot pieces count for
/// nothing, and a path that ends in the parent directory has no file name. What a path with a
/// backslash, with two leading slashes or with a colon behind its first character means is left
/// unsaid.
#[verifier::external_body]
pub(crate) fn path_file_name(path: &str) -> (r: Option<String>)
    ensures
        may_be_named(path@, name_view(r)),
{
    std::path::Path::new(path).file_name().and_then(|n| n.to_str()).map(|n| n.to_owned())
}

/// The text that `Number::as_f64` and `Display` make of an integer.
pub uninterp spec fn float_text(n: int) -> Seq<char>;

/// `serde_json::Number::as_f64` of an integer that `Number::from_i128` takes, written by the
/// floating-point number's own `Display`: the nearest floating-point number in decimal, without
/// an exponent. Up to two to the power of fifty-three the nearest floating-point number is the
/// integer itself, and its text is the integer's. Beyond that it has the digits that tell it
/// from its neighbours, which is left unsaid here.
#[verifier::external_body]
pub(crate) fn display_float(n: i128) -> (r: String)
    requires
        i64::MIN <= n <= u64::MAX,
    ensures
        r@ == float_text(n as int),
        -0x20_0000_0000_0000 <= n <= 0x20_0000_0000_0000 ==> r@ == integer_text(n as int),
{
    serde_json::Number::from_i128(n).and_then(|n| n.as_f64()).unwrap().to_string()
}

} // verus!
