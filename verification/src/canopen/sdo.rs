//! What an SDO upload returned, read as a number or as text.

use vstd::prelude::*;
use vstd::utf8::{decode_utf8, valid_utf8};

use super::bytes::{u16_at, u32_at, value16, value32};
use crate::error::{Error, Result};
use crate::number::Real32;
use crate::text::{
    decimal, decimal_is_read_back, hex, number_in, numbers_are_read_back, push_decimal, push_hex,
};

verus! {

/// The message about a reply that is too short: which object was read, what
/// was expected and how many bytes came.
pub open spec fn too_short(expected: Seq<char>, index: u16, sub: u8, got: nat) -> Seq<char> {
    expected + " for 0x"@ + hex(index as nat, 4) + ":"@ + hex(sub as nat, 2) + ", got "@ + decimal(
        got,
    )
}

fn too_short_error(expected: &str, index: u16, sub: u8, got: usize) -> (r: Error)
    ensures
        r.says(too_short(expected@, index, sub, got as nat)),
{
    let mut text = expected.to_owned();
    text.append(" for 0x");
    push_hex(&mut text, index as u32, 4);
    text.append(":");
    push_hex(&mut text, sub as u32, 2);
    text.append(", got ");
    push_decimal(&mut text, got as u64);
    Error::Internal(text)
}

/// Reads the reply as a 32-bit number. Further bytes are ignored.
pub fn decode_u32(v: &[u8], index: u16, sub: u8) -> (r: Result<u32>)
    ensures
        match r {
            Ok(x) => v@.len() >= 4 && x == value32(v@, 0),
            Err(e) => v@.len() < 4 && e.says(too_short("expected 4 bytes"@, index, sub, v@.len())),
        },
{
    if v.len() < 4 {
        return Err(too_short_error("expected 4 bytes", index, sub, v.len()));
    }
    Ok(u32_at(v, 0))
}

/// Reads the reply as a 16-bit number. Further bytes are ignored.
pub fn decode_u16(v: &[u8], index: u16, sub: u8) -> (r: Result<u16>)
    ensures
        match r {
            Ok(x) => v@.len() >= 2 && x == value16(v@, 0),
            Err(e) => v@.len() < 2 && e.says(too_short("expected 2 bytes"@, index, sub, v@.len())),
        },
{
    if v.len() < 2 {
        return Err(too_short_error("expected 2 bytes", index, sub, v.len()));
    }
    Ok(u16_at(v, 0))
}

/// Reads the reply as a byte. Further bytes are ignored.
pub fn decode_u8(v: &[u8], index: u16, sub: u8) -> (r: Result<u8>)
    ensures
        match r {
            Ok(x) => v@.len() >= 1 && x == v@[0],
            Err(e) => v@.len() == 0 && e.says(too_short("expected 1 byte"@, index, sub, 0)),
        },
{
    if v.len() == 0 {
        return Err(too_short_error("expected 1 byte", index, sub, 0));
    }
    Ok(v[0])
}

/// Reads the reply as a single-precision number. Further bytes are ignored.
pub fn decode_real32(v: &[u8], index: u16, sub: u8) -> (r: Result<Real32>)
    ensures
        match r {
            Ok(x) => v@.len() >= 4 && x.bits == value32(v@, 0),
            Err(e) => v@.len() < 4 && e.says(too_short("expected 4 bytes"@, index, sub, v@.len())),
        },
{
    match decode_u32(v, index, sub) {
        Ok(bits) => Ok(Real32 { bits }),
        Err(e) => Err(e),
    }
}

/// What `String::from_utf8_lossy` makes of the bytes.
pub uninterp spec fn lossy_text(bytes: Seq<u8>) -> Seq<char>;

/// Calls `String::from_utf8_lossy`: bytes that are UTF-8 give the text that
/// they encode. What stands for bytes that are not is only named.
#[verifier::external_body]
fn from_utf8_lossy(v: &[u8]) -> (r: String)
    ensures
        r@ == lossy_text(v@),
        valid_utf8(v@) ==> r@ == decode_utf8(v@),
{
    String::from_utf8_lossy(v).into_owned()
}

/// The position of the first NUL, or the length where there is none.
pub open spec fn text_end(v: Seq<u8>) -> nat
    decreases v.len(),
{
    if v.len() == 0 || v[0] == 0 {
        0
    } else {
        1 + text_end(v.skip(1))
    }
}

/// Where a visible string ends: at its first NUL, or with the bytes.
pub fn string_end(v: &[u8]) -> (r: usize)
    ensures
        r == text_end(v@),
        r <= v@.len(),
{
    let mut end: usize = 0;
    assert(v@.skip(0) =~= v@);
    while end < v.len() && v[end] != 0
        invariant
            end <= v@.len(),
            text_end(v@) == end + text_end(v@.skip(end as int)),
        decreases v@.len() - end,
    {
        assert(v@.skip(end as int).skip(1) =~= v@.skip(end + 1));
        end = end + 1;
    }
    end
}

/// Reads the reply as a visible string: the bytes before the first NUL, as
/// UTF-8 with a replacement character for what is not.
pub fn decode_string(v: &[u8]) -> (r: String)
    ensures
        r@ == lossy_text(v@.take(text_end(v@) as int)),
        valid_utf8(v@.take(text_end(v@) as int)) ==> r@ == decode_utf8(
            v@.take(text_end(v@) as int),
        ),
{
    let end = string_end(v);
    let text = vstd::slice::slice_subrange(v, 0, end);
    assert(text@ =~= v@.take(end as int));
    from_utf8_lossy(text)
}

/// A text ends at its first NUL: there is none before, and there is one there
/// unless the bytes end.
pub proof fn text_ends_at_the_first_nul(v: Seq<u8>)
    ensures
        text_end(v) <= v.len(),
        forall|i: int| 0 <= i < text_end(v) ==> #[trigger] v[i] != 0,
        text_end(v) < v.len() ==> v[text_end(v) as int] == 0,
    decreases v.len(),
{
    if v.len() > 0 && v[0] != 0 {
        let rest = v.skip(1);
        text_ends_at_the_first_nul(rest);
        assert forall|i: int| 0 <= i < text_end(v) implies #[trigger] v[i] != 0 by {
            if i > 0 {
                assert(v[i] == rest[i - 1]);
            }
        }
    }
}

/// The message about a short reply says what was expected, of which object and
/// how many bytes came; the numbers can be read back from it.
pub proof fn short_reply_message(expected: Seq<char>, index: u16, sub: u8, got: nat)
    ensures
        too_short(expected, index, sub, got) == expected + (" for 0x"@ + (hex(index as nat, 4) + (
        ":"@ + (hex(sub as nat, 2) + (", got "@ + decimal(got)))))),
        number_in(hex(index as nat, 4), 16) == index,
        number_in(hex(sub as nat, 2), 16) == sub,
        number_in(decimal(got), 10) == got,
{
    numbers_are_read_back(sub, index, 0);
    decimal_is_read_back(got);
    assert(too_short(expected, index, sub, got) =~= expected + (" for 0x"@ + (hex(index as nat, 4)
        + (":"@ + (hex(sub as nat, 2) + (", got "@ + decimal(got)))))));
}

} // verus!
