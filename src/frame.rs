//! The wire format of the bridge: chip-select command and acknowledgement,
//! and the hex frames that carry SPI data.

use vstd::prelude::*;
use crate::error::SerialTransportError;
use crate::hex::{ascii_chars, ascii_string, hex_upper, is_ascii_bytes, push_hex_upper, upper_digit};

verus! {

/// The largest number of data bytes that one transfer may carry.
pub const MAX_TRANSFER_LEN: usize = 2048;

/// Milliseconds to wait after a frame is written, before its echo is read.
pub const SETTLE_MS: u64 = 10;

/// `"CS=0\n"`, the command that toggles chip select on the bridge.
pub open spec fn select_command() -> Seq<u8> {
    seq![67u8, 83u8, 61u8, 48u8, 10u8]
}

/// `"OK\r\n"`, the bridge's acknowledgement of a chip-select toggle.
pub open spec fn select_ack() -> Seq<u8> {
    seq![79u8, 75u8, 13u8, 10u8]
}

/// `"x\n"`, the terminator of a frame.
pub open spec fn frame_terminator() -> Seq<u8> {
    seq![120u8, 10u8]
}

/// `"\r\n"`, the other terminator that an echo may end with.
pub open spec fn crlf() -> Seq<u8> {
    seq![13u8, 10u8]
}

/// The frame that carries `data`: uppercase hex digits, then `"x\n"`.
pub open spec fn frame_bytes(data: Seq<u8>) -> Seq<u8> {
    hex_upper(data) + frame_terminator()
}

/// Whether two bytes form valid UTF-8 text: two ASCII bytes, or one
/// two-byte encoded character.
pub open spec fn is_utf8_pair(a: u8, b: u8) -> bool {
    (a < 128 && b < 128) || (0xC2 <= a <= 0xDF && 0x80 <= b <= 0xBF)
}

/// The value of an ASCII hex digit of either case.
pub open spec fn hex_value(c: u8) -> Option<u8> {
    if 48 <= c <= 57 {
        Some((c - 48) as u8)
    } else if 97 <= c <= 102 {
        Some((c - 87) as u8)
    } else if 65 <= c <= 70 {
        Some((c - 55) as u8)
    } else {
        None
    }
}

/// The byte that a two-character chunk of hex text denotes, read as base 16
/// with an optional leading `+`.
pub open spec fn chunk_value(a: u8, b: u8) -> Result<u8, SerialTransportError> {
    if !is_utf8_pair(a, b) {
        Err(SerialTransportError::NonUtf8Hex)
    } else if a == 43 {
        match hex_value(b) {
            Some(v) => Ok(v),
            None => Err(SerialTransportError::InvalidHexDigit),
        }
    } else {
        match (hex_value(a), hex_value(b)) {
            (Some(h), Some(l)) => Ok((16 * h + l) as u8),
            _ => Err(SerialTransportError::InvalidHexDigit),
        }
    }
}

/// The first `n` bytes denoted by the leading `2 * n` bytes of `text`, or the
/// error of its first bad chunk.
pub open spec fn decode_hex(text: Seq<u8>, n: nat) -> Result<Seq<u8>, SerialTransportError>
    decreases n,
{
    if n == 0 {
        Ok(Seq::empty())
    } else {
        match decode_hex(text, (n - 1) as nat) {
            Err(e) => Err(e),
            Ok(prefix) => match chunk_value(text[2 * (n - 1)], text[2 * (n - 1) + 1]) {
                Err(e) => Err(e),
                Ok(v) => Ok(prefix.push(v)),
            },
        }
    }
}

/// Whether an echo ends with `"x\n"` or `"\r\n"`.
pub open spec fn echo_terminated(echo: Seq<u8>) -> bool {
    echo.len() >= 2 && {
        let tail = echo.subrange(echo.len() - 2, echo.len() as int);
        tail == frame_terminator() || tail == crlf()
    }
}

/// The data that the echo of an `n`-byte transfer brings back.
pub open spec fn echo_result(echo: Seq<u8>, n: nat) -> Result<Seq<u8>, SerialTransportError> {
    if !echo_terminated(echo) {
        Err(SerialTransportError::InvalidResponse)
    } else {
        decode_hex(echo, n)
    }
}

/// The outcome of a chip-select toggle whose acknowledgement was `resp`.
pub open spec fn ack_result(resp: Seq<u8>) -> Result<(), SerialTransportError> {
    if resp == select_ack() {
        Ok(())
    } else {
        Err(SerialTransportError::InvalidResponse)
    }
}

/// The chip-select command as bytes.
pub fn select_command_bytes() -> (r: Vec<u8>)
    ensures
        r@ == select_command(),
{
    let r: Vec<u8> = vec![67u8, 83u8, 61u8, 48u8, 10u8];
    assert(r@ =~= select_command());
    r
}

/// Checks the acknowledgement read back after a chip-select command.
pub fn check_ack(resp: &[u8]) -> (r: Result<(), SerialTransportError>)
    ensures
        r == ack_result(resp@),
{
    let ok = resp.len() == 4 && resp[0] == 79 && resp[1] == 75 && resp[2] == 13 && resp[3] == 10;
    if ok {
        assert(resp@ =~= select_ack());
        Ok(())
    } else {
        assert(resp@ != select_ack()) by {
            if resp@ == select_ack() {
                assert(resp@[0] == 79u8 && resp@[1] == 75u8 && resp@[2] == 13u8 && resp@[3] == 10u8);
            }
        }
        Err(SerialTransportError::InvalidResponse)
    }
}

/// The frame that carries `data`, as bytes.
pub fn encode_frame(data: &[u8]) -> (r: Vec<u8>)
    requires
        data@.len() <= MAX_TRANSFER_LEN,
    ensures
        r@ == frame_bytes(data@),
        is_ascii_bytes(r@),
{
    let mut out: Vec<u8> = Vec::with_capacity(data.len() * 2 + 2);
    push_hex_upper(&mut out, data);
    out.push(120u8);
    out.push(10u8);
    assert(out@ =~= frame_bytes(data@));
    proof {
        lemma_frame_is_ascii(data@);
    }
    out
}

proof fn lemma_upper_digit_ascii(v: int)
    requires
        0 <= v < 16,
    ensures
        upper_digit(v) < 128,
        upper_digit(v) != 43,
        hex_value(upper_digit(v)) == Some(v as u8),
{
}

proof fn lemma_frame_is_ascii(data: Seq<u8>)
    ensures
        is_ascii_bytes(frame_bytes(data)),
{
    assert forall|i: int| 0 <= i < frame_bytes(data).len() implies frame_bytes(data)[i] < 128 by {
        if i < 2 * data.len() {
            lemma_upper_digit_ascii(data[i / 2] as int / 16);
            lemma_upper_digit_ascii(data[i / 2] as int % 16);
        }
    }
}

/// Encodes `data` as a frame: two uppercase hex digits per byte, then `"x\n"`.
/// More than 2048 bytes are refused with `DataTooLong`.
pub fn encode(data: &[u8]) -> (r: Result<String, SerialTransportError>)
    ensures
        data@.len() > MAX_TRANSFER_LEN ==> r == Err::<String, SerialTransportError>(
            SerialTransportError::DataTooLong,
        ),
        data@.len() <= MAX_TRANSFER_LEN ==> (r matches Ok(s) && s@ == ascii_chars(
            frame_bytes(data@),
        )),
{
    if data.len() > MAX_TRANSFER_LEN {
        return Err(SerialTransportError::DataTooLong);
    }
    let bytes = encode_frame(data);
    Ok(ascii_string(bytes))
}

/// Once decoding has failed at some length, it fails the same way at every
/// greater length.
proof fn lemma_decode_error_persists(text: Seq<u8>, k: nat, m: nat)
    requires
        k <= m,
        decode_hex(text, k) is Err,
    ensures
        decode_hex(text, m) == decode_hex(text, k),
    decreases m - k,
{
    if k < m {
        lemma_decode_error_persists(text, k, (m - 1) as nat);
    }
}

fn hex_digit_value(c: u8) -> (r: Option<u8>)
    ensures
        r == hex_value(c),
{
    if 48 <= c && c <= 57 {
        Some(c - 48)
    } else if 97 <= c && c <= 102 {
        Some(c - 87)
    } else if 65 <= c && c <= 70 {
        Some(c - 55)
    } else {
        None
    }
}

fn decode_chunk(a: u8, b: u8) -> (r: Result<u8, SerialTransportError>)
    ensures
        r == chunk_value(a, b),
{
    let utf8 = (a < 128 && b < 128) || (0xC2 <= a && a <= 0xDF && 0x80 <= b && b <= 0xBF);
    if !utf8 {
        return Err(SerialTransportError::NonUtf8Hex);
    }
    if a == 43 {
        return match hex_digit_value(b) {
            Some(v) => Ok(v),
            None => Err(SerialTransportError::InvalidHexDigit),
        };
    }
    match (hex_digit_value(a), hex_digit_value(b)) {
        (Some(h), Some(l)) => Ok(16 * h + l),
        _ => Err(SerialTransportError::InvalidHexDigit),
    }
}

/// Decodes the first `2 * n` bytes of `text`, two hex characters per byte.
/// A chunk that is not UTF-8 gives `NonUtf8Hex`, one that is not a hex
/// number gives `InvalidHexDigit`; the first bad chunk decides.
pub fn decode(text: &[u8], n: usize) -> (r: Result<Vec<u8>, SerialTransportError>)
    requires
        2 * n <= text@.len(),
    ensures
        match r {
            Ok(v) => decode_hex(text@, n as nat) == Ok::<Seq<u8>, SerialTransportError>(v@),
            Err(e) => decode_hex(text@, n as nat) == Err::<Seq<u8>, SerialTransportError>(e),
        },
{
    let mut out: Vec<u8> = Vec::with_capacity(n);
    let mut i: usize = 0;
    while i < n
        invariant
            i <= n,
            2 * n <= text@.len(),
            decode_hex(text@, i as nat) == Ok::<Seq<u8>, SerialTransportError>(out@),
        decreases n - i,
    {
        match decode_chunk(text[2 * i], text[2 * i + 1]) {
            Ok(v) => {
                out.push(v);
                i = i + 1;
            },
            Err(e) => {
                proof {
                    lemma_decode_error_persists(text@, (i + 1) as nat, n as nat);
                }
                return Err(e);
            },
        }
    }
    Ok(out)
}

/// Checks the echo of an `n`-byte transfer and decodes the data it brings:
/// it must end with `"x\n"` or `"\r\n"` (else `InvalidResponse`), and its
/// leading `2 * n` bytes are decoded as by `decode`.
pub fn read_echo(echo: &[u8], n: usize) -> (r: Result<Vec<u8>, SerialTransportError>)
    requires
        2 * n <= echo@.len(),
    ensures
        match r {
            Ok(v) => echo_result(echo@, n as nat) == Ok::<Seq<u8>, SerialTransportError>(v@),
            Err(e) => echo_result(echo@, n as nat) == Err::<Seq<u8>, SerialTransportError>(e),
        },
{
    let terminated = is_terminated(echo);
    if !terminated {
        return Err(SerialTransportError::InvalidResponse);
    }
    decode(echo, n)
}

/// How many leading chunks of `text`, among its first `n`, decode: the
/// largest `m <= n` for which `decode_hex(text, m)` succeeds.
pub open spec fn decoded_len(text: Seq<u8>, n: nat) -> nat
    decreases n,
{
    if n == 0 {
        0
    } else if decode_hex(text, n) is Ok {
        n
    } else {
        decoded_len(text, (n - 1) as nat)
    }
}

/// A buffer after the hex text has been decoded into it chunk by chunk,
/// stopping at the first bad chunk: the bytes decoded so far, then the
/// buffer's old bytes from there on.
pub open spec fn decode_over(text: Seq<u8>, buf: Seq<u8>) -> Seq<u8> {
    let m = decoded_len(text, buf.len());
    match decode_hex(text, m) {
        Ok(prefix) => prefix + buf.subrange(m as int, buf.len() as int),
        Err(_) => buf,
    }
}

/// A buffer after an echo has been read into it: unchanged when the echo is
/// not terminated, else decoded over as by `decode_over`.
pub open spec fn echo_over(echo: Seq<u8>, buf: Seq<u8>) -> Seq<u8> {
    if !echo_terminated(echo) {
        buf
    } else {
        decode_over(echo, buf)
    }
}

/// Whether `r` reports the same outcome as `expected`, data aside.
pub open spec fn same_outcome(
    r: Result<(), SerialTransportError>,
    expected: Result<Seq<u8>, SerialTransportError>,
) -> bool {
    match expected {
        Ok(_) => r == Ok::<(), SerialTransportError>(()),
        Err(e) => r == Err::<(), SerialTransportError>(e),
    }
}

/// Once decoding fails at `k + 1` but not at `k`, exactly `k` chunks decode
/// at every greater length.
proof fn lemma_decoded_len_stops(text: Seq<u8>, k: nat, m: nat)
    requires
        k < m,
        decode_hex(text, k) is Ok,
        decode_hex(text, k + 1) is Err,
    ensures
        decoded_len(text, m) == k,
    decreases m - k,
{
    lemma_decode_error_persists(text, k + 1, m);
    if m > k + 1 {
        lemma_decoded_len_stops(text, k, (m - 1) as nat);
    } else {
        reveal_with_fuel(decoded_len, 2);
    }
}

/// Decodes the leading hex text of `text` into `buf`, in place, one byte per
/// two-character chunk. At the first bad chunk it stops with that chunk's
/// error; the bytes before it already hold their decoded values and the rest
/// keep their old ones.
pub fn decode_into(text: &[u8], buf: &mut Vec<u8>) -> (r: Result<(), SerialTransportError>)
    requires
        2 * old(buf)@.len() <= text@.len(),
    ensures
        final(buf)@ == decode_over(text@, old(buf)@),
        same_outcome(r, decode_hex(text@, old(buf)@.len())),
{
    let n = buf.len();
    let ghost start = buf@;
    let mut i: usize = 0;
    assert(buf@.subrange(0, 0) =~= Seq::<u8>::empty());
    while i < n
        invariant
            n == buf@.len(),
            start == old(buf)@,
            n == start.len(),
            i <= n,
            2 * n <= text.len(),
            decode_hex(text@, i as nat) == Ok::<Seq<u8>, SerialTransportError>(
                buf@.subrange(0, i as int),
            ),
            buf@.subrange(i as int, n as int) == start.subrange(i as int, n as int),
        decreases n - i,
    {
        match decode_chunk(text[2 * i], text[2 * i + 1]) {
            Ok(v) => {
                let ghost before = buf@;
                buf.set(i, v);
                assert(buf@.subrange(0, i + 1) =~= before.subrange(0, i as int).push(v));
                assert(buf@.subrange(i + 1, n as int) =~= before.subrange(i + 1, n as int));
                assert(before.subrange(i + 1, n as int) =~= before.subrange(i as int, n as int).subrange(1, n - i));
                assert(start.subrange(i + 1, n as int) =~= start.subrange(i as int, n as int).subrange(1, n - i));
                i = i + 1;
            },
            Err(e) => {
                proof {
                    lemma_decode_error_persists(text@, (i + 1) as nat, n as nat);
                    lemma_decoded_len_stops(text@, i as nat, n as nat);
                    assert(buf@ =~= buf@.subrange(0, i as int) + start.subrange(i as int, n as int));
                }
                return Err(e);
            },
        }
    }
    assert(buf@.subrange(0, n as int) =~= buf@);
    assert(start.subrange(n as int, n as int) =~= Seq::<u8>::empty());
    assert(buf@ =~= buf@ + start.subrange(n as int, n as int));
    Ok(())
}

/// Checks the echo of a transfer and decodes its data into `buf`, in place:
/// an echo that does not end with `"x\n"` or `"\r\n"` gives
/// `InvalidResponse` and leaves `buf` alone; otherwise decoding goes as by
/// `decode_into`.
pub fn read_echo_into(echo: &[u8], buf: &mut Vec<u8>) -> (r: Result<(), SerialTransportError>)
    requires
        2 * old(buf)@.len() <= echo@.len(),
    ensures
        final(buf)@ == echo_over(echo@, old(buf)@),
        same_outcome(r, echo_result(echo@, old(buf)@.len())),
{
    if !is_terminated(echo) {
        return Err(SerialTransportError::InvalidResponse);
    }
    decode_into(echo, buf)
}

fn is_terminated(echo: &[u8]) -> (r: bool)
    ensures
        r == echo_terminated(echo@),
{
    let len = echo.len();
    let terminated = len >= 2 && ((echo[len - 2] == 120 && echo[len - 1] == 10) || (echo[len
        - 2] == 13 && echo[len - 1] == 10));
    proof {
        if len >= 2 {
            let tail = echo@.subrange(len - 2, len as int);
            assert(tail[0] == echo@[len - 2] && tail[1] == echo@[len - 1]);
            if tail == frame_terminator() {
                assert(tail[0] == 120u8 && tail[1] == 10u8);
            }
            if tail == crlf() {
                assert(tail[0] == 13u8 && tail[1] == 10u8);
            }
            if terminated {
                if echo[len - 2] == 120 {
                    assert(tail =~= frame_terminator());
                } else {
                    assert(tail =~= crlf());
                }
            }
        }
    }
    terminated
}

/// Frames and decoding agree: decoding the frame of at most 2048 bytes gives
/// those bytes back, and so does reading it as an echo.
pub proof fn lemma_frame_round_trip(data: Seq<u8>)
    requires
        data.len() <= MAX_TRANSFER_LEN,
    ensures
        decode_hex(frame_bytes(data), data.len()) == Ok::<Seq<u8>, SerialTransportError>(data),
        echo_result(frame_bytes(data), data.len()) == Ok::<Seq<u8>, SerialTransportError>(data),
{
    lemma_decode_prefix(data, data.len());
    assert(data.subrange(0, data.len() as int) =~= data);
    let f = frame_bytes(data);
    assert(f.subrange(f.len() - 2, f.len() as int) =~= frame_terminator());
}

proof fn lemma_decode_prefix(data: Seq<u8>, k: nat)
    requires
        k <= data.len(),
    ensures
        decode_hex(frame_bytes(data), k) == Ok::<Seq<u8>, SerialTransportError>(
            data.subrange(0, k as int),
        ),
    decreases k,
{
    if k > 0 {
        lemma_decode_prefix(data, (k - 1) as nat);
        let f = frame_bytes(data);
        let b = data[k - 1];
        let j = 2 * (k - 1);
        assert(f[j] == upper_digit(b as int / 16));
        assert(f[j + 1] == upper_digit(b as int % 16));
        lemma_upper_digit_ascii(b as int / 16);
        lemma_upper_digit_ascii(b as int % 16);
        assert(chunk_value(f[j], f[j + 1]) == Ok::<u8, SerialTransportError>(b));
        assert(data.subrange(0, k - 1).push(b) =~= data.subrange(0, k as int));
    } else {
        assert(data.subrange(0, 0) =~= Seq::<u8>::empty());
    }
}

} // verus!
