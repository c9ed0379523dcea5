//! The driver-independent half of a reader session.
//!
//! Every operation of a session follows the same shape: host-side guards
//! run first, a buffer of the caller-chosen capacity is prepared, the
//! hardware call reports a signed status, and the status decides between an
//! error and how much of the buffer was filled.  This module holds those
//! decisions — the bit-count guard, the buffer-sizing discipline, the
//! sentinel-terminated capability lists, the poll-period quantization and
//! the reader-name enumeration — as verified functions over plain values;
//! the hardware half hands in the raw statuses and buffers.

use vstd::prelude::*;
use crate::error::Error;
use crate::error::error_of_code;
use crate::target::Target;
use crate::target::decode_spec;
use crate::types::BaudRate;
use crate::types::ModulationType;
use crate::types::baud_rate_of_code;
use crate::types::modulation_type_of_code;
use crate::wire::WireTarget;

verus! {

/// Number of bits carried by a transmit buffer of `len` bytes.
pub open spec fn bit_capacity(len: nat) -> nat {
    len * 8
}

/// True when a requested bit count fits in a buffer of `tx_len` bytes.
pub fn fits_bit_capacity(tx_len: usize, tx_bits: usize) -> (r: bool)
    ensures
        r == (tx_bits <= bit_capacity(tx_len as nat)),
{
    tx_bits / 8 < tx_len || (tx_bits / 8 == tx_len && tx_bits % 8 == 0)
}

/// The host-side guard of every bit-granular transmit operation.
///
/// Succeeds exactly when the requested bit count fits in the transmit
/// buffer; otherwise fails with `BufferOverflow` — before any hardware
/// interaction, which is why this guard takes only the buffer length.
pub fn check_transmit_bits(tx_len: usize, tx_bits: usize) -> (r: Result<(), Error>)
    ensures
        tx_bits <= bit_capacity(tx_len as nat) ==> r == Result::<(), Error>::Ok(()),
        tx_bits > bit_capacity(tx_len as nat) ==> r == Result::<(), Error>::Err(
            Error::BufferOverflow,
        ),
{
    if fits_bit_capacity(tx_len, tx_bits) {
        Ok(())
    } else {
        Err(Error::BufferOverflow)
    }
}

/// Allocates the zero-filled receive buffer of a caller-chosen capacity.
pub fn make_receive_buffer(capacity: usize) -> (r: Vec<u8>)
    ensures
        r@.len() == capacity,
        forall|i: int| 0 <= i < capacity ==> r@[i] == 0u8,
{
    let mut buf: Vec<u8> = Vec::new();
    let mut i: usize = 0;
    while i < capacity
        invariant
            i <= capacity,
            buf@.len() == i,
            forall|j: int| 0 <= j < i ==> buf@[j] == 0u8,
        decreases capacity - i,
    {
        buf.push(0u8);
        i = i + 1;
    }
    buf
}

/// Number of bytes that hold a count of received bits: one per eight bits,
/// rounded up.
pub open spec fn bytes_for_bits(bits: nat) -> nat {
    (bits + 7) / 8
}

/// The byte count a receive-style operation keeps: what the driver reports,
/// clamped at the buffer's capacity so that the result never exceeds what
/// the caller asked for.
pub open spec fn kept_len(reported: nat, capacity: nat) -> nat {
    if reported <= capacity {
        reported
    } else {
        capacity
    }
}

/// Finishes a byte-granular receive: a negative status is an error, a
/// non-negative status is the received byte count and the buffer is
/// truncated to it.  The result is never longer than the buffer that went
/// in, whatever the driver reported.
pub fn finish_receive_bytes(rx_buf: Vec<u8>, status: i32) -> (r: Result<Vec<u8>, Error>)
    ensures
        status < 0 ==> r == Result::<Vec<u8>, Error>::Err(error_of_code(status as int)),
        status >= 0 ==> (r matches Ok(b) && b@ == rx_buf@.take(
            kept_len(status as nat, rx_buf@.len()) as int,
        )),
        r matches Ok(b) ==> b@.len() <= rx_buf@.len(),
{
    let mut buf = rx_buf;
    if status < 0 {
        return Err(Error::from_code(status));
    }
    let reported = status as usize;
    buf.truncate(reported);
    Ok(buf)
}

/// Finishes a bit-granular receive: a negative status is an error, a
/// non-negative status is the received bit count and the buffer is
/// truncated to the bytes that hold those bits, clamped at its capacity.
pub fn finish_receive_bits(rx_buf: Vec<u8>, status: i32) -> (r: Result<Vec<u8>, Error>)
    ensures
        status < 0 ==> r == Result::<Vec<u8>, Error>::Err(error_of_code(status as int)),
        status >= 0 ==> (r matches Ok(b) && b@ == rx_buf@.take(
            kept_len(bytes_for_bits(status as nat), rx_buf@.len()) as int,
        )),
        r matches Ok(b) ==> b@.len() <= rx_buf@.len(),
{
    let mut buf = rx_buf;
    if status < 0 {
        return Err(Error::from_code(status));
    }
    let bits = status as usize;
    let bytes = bits / 8 + if bits % 8 != 0 {
        1
    } else {
        0
    };
    buf.truncate(bytes);
    Ok(buf)
}

/// Finishes a bit-granular receive that also collects one parity bit per
/// received byte: both buffers are truncated to the same byte count, taken
/// from the reported bit count and clamped at each buffer's capacity.
pub fn finish_receive_bits_with_parity(rx_buf: Vec<u8>, parity_buf: Vec<u8>, status: i32) -> (r:
    Result<(Vec<u8>, Vec<u8>), Error>)
    ensures
        status < 0 ==> r == Result::<(Vec<u8>, Vec<u8>), Error>::Err(error_of_code(status as int)),
        status >= 0 ==> (r matches Ok(p) && p.0@ == rx_buf@.take(
            kept_len(bytes_for_bits(status as nat), rx_buf@.len()) as int,
        ) && p.1@ == parity_buf@.take(
            kept_len(bytes_for_bits(status as nat), parity_buf@.len()) as int,
        )),
        r matches Ok(p) ==> p.0@.len() <= rx_buf@.len() && p.1@.len() <= parity_buf@.len(),
{
    let mut buf = rx_buf;
    let mut parity = parity_buf;
    if status < 0 {
        return Err(Error::from_code(status));
    }
    let bits = status as usize;
    let bytes = bits / 8 + if bits % 8 != 0 {
        1
    } else {
        0
    };
    buf.truncate(bytes);
    parity.truncate(bytes);
    Ok((buf, parity))
}

/// Length of the prefix of a capability list before its zero sentinel: the
/// whole sequence where no sentinel occurs.
pub open spec fn sentinel_len(s: Seq<u32>) -> nat
    decreases s.len(),
{
    if s.len() == 0 {
        0
    } else if s[0] == 0 {
        0
    } else {
        1 + sentinel_len(s.drop_first())
    }
}

/// A position is the sentinel length exactly when no sentinel stands before
/// it and either the sequence ends there or a sentinel stands at it.
proof fn lemma_sentinel_len_at(s: Seq<u32>, i: int)
    requires
        0 <= i <= s.len(),
        forall|j: int| 0 <= j < i ==> s[j] != 0,
        i < s.len() ==> s[i] == 0,
    ensures
        sentinel_len(s) == i,
    decreases s.len(),
{
    if s.len() > 0 && i > 0 {
        lemma_sentinel_len_at(s.drop_first(), i - 1);
    }
}

/// Reads a driver capability list of modulation-type codes: the codes up to
/// the zero sentinel — never a fixed count — each decoded.
pub fn supported_modulation_types(codes: &Vec<u32>) -> (r: Vec<ModulationType>)
    ensures
        r@.len() == sentinel_len(codes@),
        forall|i: int| 0 <= i < r@.len() ==> r@[i] == modulation_type_of_code(codes@[i]),
{
    let mut out: Vec<ModulationType> = Vec::new();
    let mut i: usize = 0;
    while i < codes.len() && codes[i] != 0
        invariant
            i <= codes@.len(),
            out@.len() == i,
            forall|j: int| 0 <= j < i ==> codes@[j] != 0,
            forall|j: int| 0 <= j < i ==> out@[j] == modulation_type_of_code(codes@[j]),
        decreases codes@.len() - i,
    {
        out.push(ModulationType::from_code(codes[i]));
        i = i + 1;
    }
    proof {
        lemma_sentinel_len_at(codes@, i as int);
    }
    out
}

/// Reads a driver capability list of baud-rate codes: the codes up to the
/// zero sentinel, each decoded.
pub fn supported_baud_rates(codes: &Vec<u32>) -> (r: Vec<BaudRate>)
    ensures
        r@.len() == sentinel_len(codes@),
        forall|i: int| 0 <= i < r@.len() ==> r@[i] == baud_rate_of_code(codes@[i]),
{
    let mut out: Vec<BaudRate> = Vec::new();
    let mut i: usize = 0;
    while i < codes.len() && codes[i] != 0
        invariant
            i <= codes@.len(),
            out@.len() == i,
            forall|j: int| 0 <= j < i ==> codes@[j] != 0,
            forall|j: int| 0 <= j < i ==> out@[j] == baud_rate_of_code(codes@[j]),
        decreases codes@.len() - i,
    {
        out.push(BaudRate::from_code(codes[i]));
        i = i + 1;
    }
    proof {
        lemma_sentinel_len_at(codes@, i as int);
    }
    out
}

/// The poll period a millisecond duration quantizes to: the hardware counts
/// in steps of 150 ms, rounding down and clamping at the 8-bit maximum.
pub open spec fn poll_period_units_spec(period_ms: nat) -> nat {
    if period_ms / 150 <= 255 {
        period_ms / 150
    } else {
        255
    }
}

/// Quantizes a poll period in milliseconds to the hardware's coarse unit.
pub fn poll_period_units(period_ms: u64) -> (r: u8)
    ensures
        r == poll_period_units_spec(period_ms as nat),
{
    let units = period_ms / 150;
    if units <= 255 {
        units as u8
    } else {
        255
    }
}

/// What decoding every element of a listing pass gives: the decoded targets
/// in order, or the first decoding error.
pub open spec fn decode_all_spec(s: Seq<WireTarget>) -> Result<Seq<Target>, Error>
    decreases s.len(),
{
    if s.len() == 0 {
        Ok(Seq::empty())
    } else {
        match decode_all_spec(s.drop_last()) {
            Ok(ts) => match decode_spec(s.last()) {
                Ok(t) => Ok(ts.push(t)),
                Err(e) => Err(e),
            },
            Err(e) => Err(e),
        }
    }
}

/// A decoding error in a prefix decides the whole listing.
proof fn lemma_decode_all_err_prefix(s: Seq<WireTarget>, i: int, e: Error)
    requires
        0 <= i <= s.len(),
        decode_all_spec(s.take(i)) == Result::<Seq<Target>, Error>::Err(e),
    ensures
        decode_all_spec(s) == Result::<Seq<Target>, Error>::Err(e),
    decreases s.len(),
{
    if i < s.len() {
        assert(s.drop_last().take(i) =~= s.take(i));
        lemma_decode_all_err_prefix(s.drop_last(), i, e);
    } else {
        assert(s.take(i) =~= s);
    }
}

/// Decodes the wire targets of one listing pass.
///
/// Takes the first `kept_len(reported, capacity)` scratch entries — the
/// count the driver reports, clamped at the scratch array's length — and
/// decodes each in order, propagating the first decoding error.  On success
/// every returned target is well formed and there are at most `reported` of
/// them.
pub fn decode_targets(wires: &Vec<WireTarget>, reported: usize) -> (r: Result<Vec<Target>, Error>)
    ensures
        decode_all_spec(
            wires@.take(kept_len(reported as nat, wires@.len()) as int),
        ) matches Ok(ts) ==> r matches Ok(v) && v@ == ts,
        decode_all_spec(
            wires@.take(kept_len(reported as nat, wires@.len()) as int),
        ) matches Err(e) ==> r == Result::<Vec<Target>, Error>::Err(e),
        r matches Ok(v) ==> v@.len() <= reported && forall|i: int|
            0 <= i < v@.len() ==> (#[trigger] v@[i]).wf(),
{
    let n = if reported <= wires.len() {
        reported
    } else {
        wires.len()
    };
    let mut out: Vec<Target> = Vec::new();
    let mut i: usize = 0;
    while i < n
        invariant
            i <= n,
            n <= wires@.len(),
            n == kept_len(reported as nat, wires@.len()),
            out@.len() == i,
            decode_all_spec(wires@.take(i as int)) == Result::<Seq<Target>, Error>::Ok(out@),
            forall|j: int| 0 <= j < i ==> (#[trigger] out@[j]).wf(),
        decreases n - i,
    {
        proof {
            assert(wires@.take(i + 1).drop_last() =~= wires@.take(i as int));
            assert(wires@.take(i + 1).last() == wires@[i as int]);
        }
        match Target::decode(&wires[i]) {
            Ok(t) => {
                out.push(t);
            },
            Err(e) => {
                proof {
                    assert(wires@.take(n as int).take(i + 1) =~= wires@.take(i + 1));
                    assert(decode_all_spec(wires@.take(i + 1)) == Result::<
                        Seq<Target>,
                        Error,
                    >::Err(e));
                    lemma_decode_all_err_prefix(wires@.take(n as int), i + 1, e);
                }
                return Err(e);
            },
        }
        i = i + 1;
    }
    Ok(out)
}

/// Length of the prefix of a raw reader-name buffer before its first NUL:
/// the whole buffer where no NUL occurs.
pub open spec fn cstr_len(s: Seq<u8>) -> nat
    decreases s.len(),
{
    if s.len() == 0 {
        0
    } else if s[0] == 0 {
        0
    } else {
        1 + cstr_len(s.drop_first())
    }
}

/// A NUL-free prefix is never longer than the buffer.
proof fn lemma_cstr_len_le_len(s: Seq<u8>)
    ensures
        cstr_len(s) <= s.len(),
    decreases s.len(),
{
    if s.len() > 0 && s[0] != 0 {
        lemma_cstr_len_le_len(s.drop_first());
    }
}

/// A position is the NUL-free prefix length exactly when no NUL stands
/// before it and either the buffer ends there or a NUL stands at it.
proof fn lemma_cstr_len_at(s: Seq<u8>, i: int)
    requires
        0 <= i <= s.len(),
        forall|j: int| 0 <= j < i ==> s[j] != 0,
        i < s.len() ==> s[i] == 0,
    ensures
        cstr_len(s) == i,
    decreases s.len(),
{
    if s.len() > 0 && i > 0 {
        lemma_cstr_len_at(s.drop_first(), i - 1);
    }
}

/// Where no NUL stands before a position, the NUL-free prefix reaches at
/// least that far.
proof fn lemma_cstr_len_ge(s: Seq<u8>, i: int)
    requires
        0 <= i <= s.len(),
        forall|j: int| 0 <= j < i ==> s[j] != 0,
    ensures
        cstr_len(s) >= i,
    decreases s.len(),
{
    if s.len() > 0 && i > 0 {
        lemma_cstr_len_ge(s.drop_first(), i - 1);
    }
}

/// The identifier a raw reader-name buffer yields: its bytes up to the
/// first NUL, capped at 1023 bytes however long the buffer is.
pub open spec fn reader_token_spec(s: Seq<u8>) -> Seq<u8> {
    if cstr_len(s) <= 1023 {
        s.take(cstr_len(s) as int)
    } else {
        s.take(1023)
    }
}

/// Cuts a raw reader-name buffer at its first NUL, keeping at most 1023
/// bytes.
pub fn reader_token(buf: &Vec<u8>) -> (r: Vec<u8>)
    ensures
        r@ == reader_token_spec(buf@),
        r@.len() <= 1023,
{
    let mut out: Vec<u8> = Vec::new();
    let mut i: usize = 0;
    while i < buf.len() && i < 1023 && buf[i] != 0
        invariant
            i <= buf@.len(),
            i <= 1023,
            out@.len() == i,
            forall|j: int| 0 <= j < i ==> buf@[j] != 0,
            out@ == buf@.take(i as int),
        decreases buf@.len() - i,
    {
        let b = buf[i];
        out.push(b);
        proof {
            assert(out@ =~= buf@.take(i + 1));
        }
        i = i + 1;
    }
    proof {
        if i < buf@.len() && i < 1023 {
            lemma_cstr_len_at(buf@, i as int);
        } else if i == buf@.len() {
            lemma_cstr_len_at(buf@, i as int);
        } else {
            lemma_cstr_len_ge(buf@, i as int);
        }
    }
    out
}

/// The reader identifiers one enumeration pass yields: each raw buffer cut
/// at its first NUL and capped at 1023 bytes, in order, with empty names
/// left out.
pub open spec fn reader_tokens_spec(s: Seq<Vec<u8>>) -> Seq<Seq<u8>>
    decreases s.len(),
{
    if s.len() == 0 {
        Seq::empty()
    } else {
        let front = reader_tokens_spec(s.drop_last());
        let t = reader_token_spec(s.last()@);
        if t.len() > 0 {
            front.push(t)
        } else {
            front
        }
    }
}

/// Every enumeration pass yields at most one identifier per raw buffer, and
/// each identifier is non-empty and at most 1023 bytes long.
pub proof fn lemma_reader_tokens_bounds(s: Seq<Vec<u8>>)
    ensures
        reader_tokens_spec(s).len() <= s.len(),
        forall|i: int|
            0 <= i < reader_tokens_spec(s).len() ==> 1 <= (#[trigger] reader_tokens_spec(s)[i]).len()
                <= 1023,
    decreases s.len(),
{
    if s.len() > 0 {
        lemma_reader_tokens_bounds(s.drop_last());
        lemma_cstr_len_le_len(s.last()@);
    }
}

/// Collects the reader identifiers of one enumeration pass: the first
/// `reported` raw name buffers — clamped at however many were allocated —
/// each cut at its first NUL, keeping the non-empty ones in order.
pub fn list_reader_tokens(bufs: &Vec<Vec<u8>>, reported: usize) -> (r: Vec<Vec<u8>>)
    ensures
        ({
            let toks = reader_tokens_spec(
                bufs@.take(kept_len(reported as nat, bufs@.len()) as int),
            );
            &&& r@.len() == toks.len()
            &&& forall|i: int| 0 <= i < r@.len() ==> (#[trigger] r@[i])@ == toks[i]
        }),
        r@.len() <= reported,
        r@.len() <= bufs@.len(),
        forall|i: int| 0 <= i < r@.len() ==> 1 <= (#[trigger] r@[i])@.len() <= 1023,
{
    let n = if reported <= bufs.len() {
        reported
    } else {
        bufs.len()
    };
    let mut out: Vec<Vec<u8>> = Vec::new();
    let mut i: usize = 0;
    while i < n
        invariant
            i <= n,
            n <= bufs@.len(),
            n <= reported,
            n == kept_len(reported as nat, bufs@.len()),
            out@.len() <= i,
            ({
                let toks = reader_tokens_spec(bufs@.take(i as int));
                &&& out@.len() == toks.len()
                &&& forall|j: int| 0 <= j < out@.len() ==> (#[trigger] out@[j])@ == toks[j]
            }),
            forall|j: int| 0 <= j < out@.len() ==> 1 <= (#[trigger] out@[j])@.len() <= 1023,
        decreases n - i,
    {
        proof {
            assert(bufs@.take(i + 1).drop_last() =~= bufs@.take(i as int));
            assert(bufs@.take(i + 1).last() == bufs@[i as int]);
        }
        let tok = reader_token(&bufs[i]);
        if tok.len() > 0 {
            out.push(tok);
        }
        i = i + 1;
    }
    out
}

/// Pads or truncates a reader identifier to the driver's fixed 1023-byte
/// connection-string field: the identifier's first bytes, zero-filled to
/// exactly 1023 bytes.
pub fn connstring_buffer(name: &Vec<u8>) -> (r: Vec<u8>)
    ensures
        r@.len() == 1023,
        forall|i: int|
            0 <= i < 1023 ==> r@[i] == (if i < name@.len() {
                name@[i]
            } else {
                0u8
            }),
{
    let mut out: Vec<u8> = Vec::new();
    let mut i: usize = 0;
    while i < 1023
        invariant
            i <= 1023,
            out@.len() == i,
            forall|j: int|
                0 <= j < i ==> out@[j] == (if j < name@.len() {
                    name@[j]
                } else {
                    0u8
                }),
        decreases 1023 - i,
    {
        if i < name.len() {
            let b = name[i];
            out.push(b);
        } else {
            out.push(0u8);
        }
        i = i + 1;
    }
    out
}

} // verus!
