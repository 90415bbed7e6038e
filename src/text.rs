//! Building ASCII text byte by byte.

use vstd::prelude::*;
use vstd::string::{is_ascii, is_ascii_spec_bytes, StringSliceAdditionalSpecFns};
use crate::hex::{is_ascii_bytes, upper_digit, upper_nibble};

verus! {

/// The bytes of an ASCII text.
pub open spec fn label(s: Seq<char>) -> Seq<u8> {
    s.map_values(|c: char| c as u8)
}

/// `v` as `width` uppercase hex digits, most significant first (the digits
/// above `width` are dropped).
pub open spec fn hex_field(v: nat, width: nat) -> Seq<u8>
    decreases width,
{
    if width == 0 {
        Seq::empty()
    } else {
        hex_field(v / 16, (width - 1) as nat).push(upper_digit((v % 16) as int))
    }
}

/// Appends the bytes of an ASCII text.
pub(crate) fn push_label(out: &mut Vec<u8>, s: &str)
    requires
        is_ascii(s),
        is_ascii_bytes(old(out)@),
    ensures
        final(out)@ == old(out)@ + label(s@),
        is_ascii_bytes(final(out)@),
{
    broadcast use is_ascii_spec_bytes;

    let bytes = s.as_bytes();
    let ghost start = out@;
    let mut i: usize = 0;
    while i < bytes.len()
        invariant
            bytes@ == s.spec_bytes(),
            bytes@.len() == s@.len(),
            is_ascii(s),
            i <= bytes@.len(),
            out@ == start + label(s@).subrange(0, i as int),
            is_ascii_bytes(out@),
        decreases bytes@.len() - i,
    {
        out.push(bytes[i]);
        i = i + 1;
        assert(out@ =~= start + label(s@).subrange(0, i as int));
    }
    assert(label(s@).subrange(0, i as int) =~= label(s@));
}

/// Appends the `width` low hex digits of `v`, uppercase.
pub(crate) fn push_hex_field(out: &mut Vec<u8>, v: u32, width: usize)
    requires
        width <= 8,
        is_ascii_bytes(old(out)@),
    ensures
        final(out)@ == old(out)@ + hex_field(v as nat, width as nat),
        is_ascii_bytes(final(out)@),
    decreases width,
{
    if width == 0 {
        assert(old(out)@ + hex_field(v as nat, 0) =~= old(out)@);
        return;
    }
    push_hex_field(out, v / 16, width - 1);
    out.push(upper_nibble((v % 16) as u8));
    assert(out@ =~= old(out)@ + hex_field(v as nat, width as nat));
}

} // verus!
