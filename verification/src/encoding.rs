//! Base64, as documents and signatures travel.

use base64::Engine;
use vstd::prelude::*;

verus! {

/// The base64 digit for six bits.
pub open spec fn base64_digit(bits: int) -> char {
    if bits < 26 {
        ((65 + bits) as u32) as char
    } else if bits < 52 {
        ((97 + bits - 26) as u32) as char
    } else if bits < 62 {
        ((48 + bits - 52) as u32) as char
    } else if bits == 62 {
        '+'
    } else {
        '/'
    }
}

/// The standard base64 text of the bytes: four digits for every three bytes,
/// filled up with `=` at the end.
pub open spec fn base64_text(bytes: Seq<u8>) -> Seq<char>
    decreases bytes.len(),
{
    if bytes.len() == 0 {
        seq![]
    } else {
        let a = bytes[0] as int;
        let b = if bytes.len() > 1 {
            bytes[1] as int
        } else {
            0
        };
        let c = if bytes.len() > 2 {
            bytes[2] as int
        } else {
            0
        };
        let group = seq![
            base64_digit(a / 4),
            base64_digit(a % 4 * 16 + b / 16),
            if bytes.len() > 1 {
                base64_digit(b % 16 * 4 + c / 64)
            } else {
                '='
            },
            if bytes.len() > 2 {
                base64_digit(c % 64)
            } else {
                '='
            },
        ];
        if bytes.len() > 3 {
            group + base64_text(bytes.skip(3))
        } else {
            group
        }
    }
}

/// Whether the base64 text of that many bytes fits in memory.
pub open spec fn base64_fits(len: int) -> bool {
    (len + 2) / 3 * 4 <= isize::MAX
}

/// `base64`'s `STANDARD.encode`: the bytes in standard base64 with padding. It
/// panics where the text would be too long for memory to hold.
#[verifier::external_body]
pub(crate) fn base64_encode(bytes: &[u8]) -> (text: String)
    requires
        base64_fits(bytes@.len() as int),
    ensures
        text@ == base64_text(bytes@),
{
    base64::engine::general_purpose::STANDARD.encode(bytes)
}

} // verus!
