//! Hexadecimal text for byte buffers.

use vstd::prelude::*;

verus! {

/// The ASCII code of the lowercase hex digit for a nibble.
pub open spec fn lower_digit(v: int) -> u8 {
    if v < 10 {
        (48 + v) as u8
    } else {
        (87 + v) as u8
    }
}

/// The ASCII code of the uppercase hex digit for a nibble.
pub open spec fn upper_digit(v: int) -> u8 {
    if v < 10 {
        (48 + v) as u8
    } else {
        (55 + v) as u8
    }
}

/// Two lowercase hex digits per byte, most significant nibble first.
pub open spec fn hex_lower(bytes: Seq<u8>) -> Seq<u8> {
    Seq::new(
        2 * bytes.len(),
        |j: int|
            if j % 2 == 0 {
                lower_digit(bytes[j / 2] as int / 16)
            } else {
                lower_digit(bytes[j / 2] as int % 16)
            },
    )
}

/// Two uppercase hex digits per byte, most significant nibble first.
pub open spec fn hex_upper(bytes: Seq<u8>) -> Seq<u8> {
    Seq::new(
        2 * bytes.len(),
        |j: int|
            if j % 2 == 0 {
                upper_digit(bytes[j / 2] as int / 16)
            } else {
                upper_digit(bytes[j / 2] as int % 16)
            },
    )
}

/// The characters of an ASCII byte sequence.
pub open spec fn ascii_chars(bytes: Seq<u8>) -> Seq<char> {
    bytes.map_values(|b: u8| b as char)
}

pub open spec fn is_ascii_bytes(bytes: Seq<u8>) -> bool {
    forall|i: int| 0 <= i < bytes.len() ==> bytes[i] < 128
}

/// Relies on `String::from_utf8`: ASCII bytes are valid UTF-8, so the call
/// succeeds and each byte becomes the character with that code.
#[verifier::external_body]
pub(crate) fn ascii_string(bytes: Vec<u8>) -> (r: String)
    requires
        is_ascii_bytes(bytes@),
    ensures
        r@ == ascii_chars(bytes@),
{
    match String::from_utf8(bytes) {
        Ok(s) => s,
        Err(_) => String::new(),
    }
}

fn lower_nibble(v: u8) -> (r: u8)
    requires
        v < 16,
    ensures
        r == lower_digit(v as int),
        r < 128,
{
    if v < 10 {
        48 + v
    } else {
        87 + v
    }
}

pub(crate) fn upper_nibble(v: u8) -> (r: u8)
    requires
        v < 16,
    ensures
        r == upper_digit(v as int),
        r < 128,
{
    if v < 10 {
        48 + v
    } else {
        55 + v
    }
}

/// Appends the uppercase hex digits of `bytes` to `out`.
pub(crate) fn push_hex_upper(out: &mut Vec<u8>, bytes: &[u8])
    ensures
        final(out)@ == old(out)@ + hex_upper(bytes@),
{
    let ghost start = out@;
    let mut i: usize = 0;
    while i < bytes.len()
        invariant
            i <= bytes@.len(),
            out@ == start + hex_upper(bytes@.subrange(0, i as int)),
        decreases bytes@.len() - i,
    {
        let b = bytes[i];
        out.push(upper_nibble(b / 16));
        out.push(upper_nibble(b % 16));
        i = i + 1;
        assert(out@ =~= start + hex_upper(bytes@.subrange(0, i as int)));
    }
    assert(bytes@.subrange(0, bytes@.len() as int) =~= bytes@);
}

/// The bytes as lowercase hexadecimal text, two digits per byte.
pub fn encode(data: &[u8]) -> (r: String)
    ensures
        r@ == ascii_chars(hex_lower(data@)),
{
    let mut out: Vec<u8> = Vec::new();
    let mut i: usize = 0;
    while i < data.len()
        invariant
            i <= data@.len(),
            out@ == hex_lower(data@.subrange(0, i as int)),
            is_ascii_bytes(out@),
        decreases data@.len() - i,
    {
        let b = data[i];
        out.push(lower_nibble(b / 16));
        out.push(lower_nibble(b % 16));
        i = i + 1;
        assert(out@ =~= hex_lower(data@.subrange(0, i as int)));
    }
    assert(data@.subrange(0, data@.len() as int) =~= data@);
    ascii_string(out)
}

/// The bytes as lowercase hexadecimal text, two digits per byte.
pub fn bytes_to_hex(bytes: &[u8]) -> (r: String)
    ensures
        r@ == ascii_chars(hex_lower(bytes@)),
{
    encode(bytes)
}

} // verus!
