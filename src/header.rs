//! The v2 firmware header that the boot loader reports for a bank.

use vstd::prelude::*;
use crate::hex::{ascii_chars, ascii_string, hex_upper, is_ascii_bytes, push_hex_upper};
use crate::text::{hex_field, label, push_hex_field, push_label};

verus! {

/// Size in bytes of a v1 header.
pub const L2_GET_INFO_FW_HEADER_SIZE_BOOT_V1: usize = 20;

/// Size in bytes of a v2 header.
pub const L2_GET_INFO_FW_HEADER_SIZE_BOOT_V2: usize = 52;

/// Size reported for an empty bank.
pub const L2_GET_INFO_FW_HEADER_SIZE_BOOT_V2_EMPTY_BANK: usize = 0;

/// A v2 firmware header. Multi-byte fields are little-endian on the wire.
#[derive(Clone, Copy, Debug, PartialEq, Eq)]
pub struct LtHeaderBootV2 {
    /// 1 for RISC-V firmware, 2 for SPECT firmware.
    pub type_: u16,
    pub padding: u8,
    /// Version of the header layout.
    pub header_version: u8,
    /// Firmware version.
    pub ver: u32,
    /// Firmware size in bytes.
    pub size: u32,
    /// First four bytes of the git hash.
    pub git_hash: u32,
    /// SHA-256 of the firmware.
    pub hash: [u8; 32],
    pub pair_version: u32,
}

/// Why a header could not be parsed.
#[derive(Debug, Clone, Copy, PartialEq, Eq, Structural)]
pub enum ParseHeaderV2Error {
    TooShort { got: usize, expected: usize },
}

/// The little-endian 16-bit number at `at`.
pub open spec fn le16(b: Seq<u8>, at: int) -> int {
    b[at] + 256 * b[at + 1]
}

/// The little-endian 32-bit number at `at`.
pub open spec fn le32(b: Seq<u8>, at: int) -> int {
    b[at] + 256 * b[at + 1] + 65536 * b[at + 2] + 16777216 * b[at + 3]
}

/// Whether `h` holds the fields of the header laid out in `b`.
pub open spec fn header_of(b: Seq<u8>, h: LtHeaderBootV2) -> bool {
    &&& h.type_ == le16(b, 0)
    &&& h.padding == b[2]
    &&& h.header_version == b[3]
    &&& h.ver == le32(b, 4)
    &&& h.size == le32(b, 8)
    &&& h.git_hash == le32(b, 12)
    &&& h.hash@ == b.subrange(16, 48)
    &&& h.pair_version == le32(b, 48)
}

/// The decimal digits of `n`, most significant first.
pub open spec fn decimal(n: nat) -> Seq<u8>
    decreases n,
{
    if n < 10 {
        seq![(48 + n) as u8]
    } else {
        decimal(n / 10).push((48 + n % 10) as u8)
    }
}

/// The message of a parse error.
pub open spec fn parse_error_text(e: ParseHeaderV2Error) -> Seq<u8> {
    match e {
        ParseHeaderV2Error::TooShort { got, expected } => label("slice too short: got "@)
            + decimal(got as nat) + label(" bytes, expected "@) + decimal(expected as nat),
    }
}

/// Appends the decimal digits of `n`.
fn push_decimal(out: &mut Vec<u8>, n: usize)
    requires
        is_ascii_bytes(old(out)@),
    ensures
        final(out)@ == old(out)@ + decimal(n as nat),
        is_ascii_bytes(final(out)@),
    decreases n,
{
    if n >= 10 {
        push_decimal(out, n / 10);
    }
    out.push(48 + (n % 10) as u8);
    assert(out@ =~= old(out)@ + decimal(n as nat));
}

impl ParseHeaderV2Error {
    /// The error as a message: `slice too short: got N bytes, expected M`.
    pub fn to_string(&self) -> (r: String)
        ensures
            r@ == ascii_chars(parse_error_text(*self)),
    {
        let mut out: Vec<u8> = Vec::new();
        proof {
            reveal_strlit("slice too short: got ");
            reveal_strlit(" bytes, expected ");
        }
        match self {
            ParseHeaderV2Error::TooShort { got, expected } => {
                push_label(&mut out, "slice too short: got ");
                push_decimal(&mut out, *got);
                push_label(&mut out, " bytes, expected ");
                push_decimal(&mut out, *expected);
            },
        }
        assert(out@ =~= parse_error_text(*self));
        ascii_string(out)
    }
}

/// A line ending.
pub open spec fn newline() -> Seq<u8> {
    seq![10u8]
}

/// The printed form of a header: one labelled line per field, numbers in
/// zero-padded uppercase hex.
pub open spec fn header_text(h: LtHeaderBootV2) -> Seq<u8> {
    label("      Type:               "@) + hex_field(h.type_ as nat, 4) + newline()
        + label("      Padding:            "@) + hex_field(h.padding as nat, 2) + newline()
        + label("      FW header version:  "@) + hex_field(h.header_version as nat, 2)
        + newline() + label("      Version:            "@) + hex_field(h.ver as nat, 8)
        + newline() + label("      Size:               "@) + hex_field(h.size as nat, 8)
        + newline() + label("      Git hash:           "@) + hex_field(h.git_hash as nat, 8)
        + newline() + label("      Hash:          "@) + hex_upper(h.hash@) + newline() + label(
        "      Pair version:  "@,
    ) + hex_field(h.pair_version as nat, 8) + newline()
}

pub(crate) fn read_le16(b: &[u8], at: usize) -> (r: u16)
    requires
        at + 2 <= b@.len(),
    ensures
        r == le16(b@, at as int),
{
    b[at] as u16 + 256 * (b[at + 1] as u16)
}

pub(crate) fn read_le32(b: &[u8], at: usize) -> (r: u32)
    requires
        at + 4 <= b@.len(),
    ensures
        r == le32(b@, at as int),
{
    b[at] as u32 + 256 * (b[at + 1] as u32) + 65536 * (b[at + 2] as u32) + 16777216 * (b[at
        + 3] as u32)
}

/// The `N` bytes of `b` from `at` on, as an array.
pub(crate) fn take_array<const N: usize>(b: &[u8], at: usize) -> (r: [u8; N])
    requires
        at + N <= b.len(),
    ensures
        r@ == b@.subrange(at as int, at + N),
{
    let mut r: [u8; N] = vstd::array::array_fill_for_copy_types(0u8);
    let mut i: usize = 0;
    while i < N
        invariant
            at + N <= b.len(),
            i <= N,
            r@.len() == N,
            forall|j: int| 0 <= j < i ==> r@[j] == b@[at + j],
        decreases N - i,
    {
        r[i] = b[at + i];
        i = i + 1;
    }
    assert(r@ =~= b@.subrange(at as int, at + N));
    r
}

impl LtHeaderBootV2 {
    /// Parses a header from its first 52 bytes; a shorter slice gives
    /// `TooShort` with its length.
    pub fn parse(slice: &[u8]) -> (r: Result<LtHeaderBootV2, ParseHeaderV2Error>)
        ensures
            slice@.len() < L2_GET_INFO_FW_HEADER_SIZE_BOOT_V2 ==> r == Err::<
                LtHeaderBootV2,
                ParseHeaderV2Error,
            >(ParseHeaderV2Error::TooShort { got: slice@.len() as usize, expected: 52 }),
            slice@.len() >= L2_GET_INFO_FW_HEADER_SIZE_BOOT_V2 ==> (r matches Ok(h) && header_of(
                slice@,
                h,
            )),
    {
        if slice.len() < L2_GET_INFO_FW_HEADER_SIZE_BOOT_V2 {
            return Err(
                ParseHeaderV2Error::TooShort {
                    got: slice.len(),
                    expected: L2_GET_INFO_FW_HEADER_SIZE_BOOT_V2,
                },
            );
        }
        Ok(
            LtHeaderBootV2 {
                type_: read_le16(slice, 0),
                padding: slice[2],
                header_version: slice[3],
                ver: read_le32(slice, 4),
                size: read_le32(slice, 8),
                git_hash: read_le32(slice, 12),
                hash: take_array(slice, 16),
                pair_version: read_le32(slice, 48),
            },
        )
    }

    /// The header as printed: one labelled line per field.
    pub fn to_string(&self) -> (r: String)
        ensures
            r@ == ascii_chars(header_text(*self)),
    {
        let mut out: Vec<u8> = Vec::new();
        proof {
            reveal_strlit("      Type:               ");
            reveal_strlit("      Padding:            ");
            reveal_strlit("      FW header version:  ");
            reveal_strlit("      Version:            ");
            reveal_strlit("      Size:               ");
            reveal_strlit("      Git hash:           ");
            reveal_strlit("      Hash:          ");
            reveal_strlit("      Pair version:  ");
        }
        push_label(&mut out, "      Type:               ");
        push_hex_field(&mut out, self.type_ as u32, 4);
        out.push(10u8);
        push_label(&mut out, "      Padding:            ");
        push_hex_field(&mut out, self.padding as u32, 2);
        out.push(10u8);
        push_label(&mut out, "      FW header version:  ");
        push_hex_field(&mut out, self.header_version as u32, 2);
        out.push(10u8);
        push_label(&mut out, "      Version:            ");
        push_hex_field(&mut out, self.ver, 8);
        out.push(10u8);
        push_label(&mut out, "      Size:               ");
        push_hex_field(&mut out, self.size, 8);
        out.push(10u8);
        push_label(&mut out, "      Git hash:           ");
        push_hex_field(&mut out, self.git_hash, 8);
        out.push(10u8);
        push_label(&mut out, "      Hash:          ");
        push_hex_upper(&mut out, &self.hash);
        proof {
            lemma_hex_upper_ascii(self.hash@);
        }
        out.push(10u8);
        push_label(&mut out, "      Pair version:  ");
        push_hex_field(&mut out, self.pair_version, 8);
        out.push(10u8);
        assert(out@ =~= header_text(*self));
        ascii_string(out)
    }
}

proof fn lemma_hex_upper_ascii(b: Seq<u8>)
    ensures
        is_ascii_bytes(hex_upper(b)),
{
    assert forall|i: int| 0 <= i < hex_upper(b).len() implies hex_upper(b)[i] < 128 by {
        assert(b[i / 2] as int / 16 < 16);
    }
}

impl<'a> TryFrom<&'a [u8]> for LtHeaderBootV2 {
    type Error = ParseHeaderV2Error;

    /// Parses a header as [`LtHeaderBootV2::parse`] does.
    fn try_from(slice: &'a [u8]) -> (r: Result<LtHeaderBootV2, ParseHeaderV2Error>)
        ensures
            slice@.len() < L2_GET_INFO_FW_HEADER_SIZE_BOOT_V2 ==> r == Err::<
                LtHeaderBootV2,
                ParseHeaderV2Error,
            >(ParseHeaderV2Error::TooShort { got: slice@.len() as usize, expected: 52 }),
            slice@.len() >= L2_GET_INFO_FW_HEADER_SIZE_BOOT_V2 ==> (r matches Ok(h) && header_of(
                slice@,
                h,
            )),
    {
        let r = LtHeaderBootV2::parse(slice);
        proof {
            if let Ok(h) = r {
                let c = choose|c: LtHeaderBootV2| header_of(slice@, c);
                assert(c.hash =~= h.hash);
            }
        }
        r
    }
}

impl<'a> vstd::std_specs::convert::TryFromSpecImpl<&'a [u8]> for LtHeaderBootV2 {
    open spec fn obeys_try_from_spec() -> bool {
        true
    }

    open spec fn try_from_spec(slice: &'a [u8]) -> Result<LtHeaderBootV2, ParseHeaderV2Error> {
        if slice@.len() < L2_GET_INFO_FW_HEADER_SIZE_BOOT_V2 {
            Err(ParseHeaderV2Error::TooShort { got: slice@.len() as usize, expected: 52 })
        } else {
            Ok(choose|h: LtHeaderBootV2| header_of(slice@, h))
        }
    }
}

} // verus!
