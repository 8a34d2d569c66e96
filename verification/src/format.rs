//! Canonical log-line formatter: one text line per captured frame,
//! byte-exact as `(<sec>.<usec:06>) <iface> <ID>#<BODY>\n`.
//!
//! The identifier renders as 3 uppercase hex digits for a standard frame and
//! 8 for an extended one, zero-padded. The body is `R` for a remote frame
//! and the uppercase hex payload for a data frame; an error frame is always
//! represented, carrying the transport-supplied payload bytes (the
//! deployment's downstream tooling expects that form rather than a fixed
//! sentinel).

use vstd::prelude::*;

use crate::frame::{FrameKind, RawFrame, Timestamp};

verus! {

/// ASCII code of the uppercase hexadecimal digit for `d`.
pub open spec fn hex_char(d: int) -> u8
    recommends
        0 <= d < 16,
{
    if d < 10 {
        (48 + d) as u8
    } else {
        (55 + d) as u8
    }
}

/// `n` written in exactly `width` uppercase hex digits, most significant
/// first, zero-padded on the left and truncated above `16^width`.
pub open spec fn spec_hex_fixed(n: int, width: nat) -> Seq<u8>
    decreases width,
{
    if width == 0 {
        Seq::empty()
    } else {
        spec_hex_fixed(n / 16, (width - 1) as nat).push(hex_char(n % 16))
    }
}

/// `n` written in decimal with no padding (a single `0` for zero).
pub open spec fn spec_dec(n: nat) -> Seq<u8>
    decreases n,
{
    if n < 10 {
        seq![hex_char(n as int)]
    } else {
        spec_dec(n / 10).push(hex_char((n % 10) as int))
    }
}

/// `n` written in exactly `width` decimal digits, zero-padded on the left.
pub open spec fn spec_dec_fixed(n: int, width: nat) -> Seq<u8>
    decreases width,
{
    if width == 0 {
        Seq::empty()
    } else {
        spec_dec_fixed(n / 10, (width - 1) as nat).push(hex_char(n % 10))
    }
}

/// A byte sequence written as uppercase hex, two digits per byte, high
/// nibble first, in sequence order.
pub open spec fn spec_hex_bytes(s: Seq<u8>) -> Seq<u8>
    decreases s.len(),
{
    if s.len() == 0 {
        Seq::empty()
    } else {
        spec_hex_bytes(s.drop_last()) + seq![
            hex_char(s.last() as int / 16),
            hex_char(s.last() as int % 16),
        ]
    }
}

/// The line's identifier field: 8 hex digits for an extended identifier,
/// 3 for a standard one.
pub open spec fn spec_id_field(f: RawFrame) -> Seq<u8> {
    if f.extended {
        spec_hex_fixed(f.id as int, 8)
    } else {
        spec_hex_fixed(f.id as int, 3)
    }
}

/// The line's body: `R` for a remote frame, the uppercase hex payload for a
/// data or error frame.
pub open spec fn spec_body(f: RawFrame) -> Seq<u8> {
    match f.kind {
        FrameKind::Remote => seq![82u8],
        _ => spec_hex_bytes(f.payload@),
    }
}

/// The line's header: `(<seconds>.<6-digit microseconds>) <iface> `.
pub open spec fn spec_header(t: Timestamp, iface: Seq<u8>) -> Seq<u8> {
    seq![40u8] + spec_dec((t.micros / 1000000) as nat) + seq![46u8] + spec_dec_fixed(
        (t.micros % 1000000) as int,
        6,
    ) + seq![41u8, 32u8] + iface + seq![32u8]
}

/// The whole canonical log line, newline included.
pub open spec fn spec_line(f: RawFrame, t: Timestamp, iface: Seq<u8>) -> Seq<u8> {
    spec_header(t, iface) + spec_id_field(f) + seq![35u8] + spec_body(f) + seq![10u8]
}

/// A fixed-width hex rendering always has exactly its width: standard
/// identifiers occupy 3 digits and extended ones 8, zero-padded, no matter
/// how small the identifier is.
pub proof fn lemma_hex_fixed_len(n: int, width: nat)
    ensures
        spec_hex_fixed(n, width).len() == width,
    decreases width,
{
    if width > 0 {
        lemma_hex_fixed_len(n / 16, (width - 1) as nat);
    }
}

/// The identifier field of an extended frame is 8 digits long, that of a
/// standard frame 3.
pub proof fn lemma_id_field_width(f: RawFrame)
    ensures
        f.extended ==> spec_id_field(f).len() == 8,
        !f.extended ==> spec_id_field(f).len() == 3,
{
    lemma_hex_fixed_len(f.id as int, 8);
    lemma_hex_fixed_len(f.id as int, 3);
}

/// The uppercase hex digit for a nibble.
fn hex_char_of(d: u8) -> (r: u8)
    requires
        d < 16,
    ensures
        r == hex_char(d as int),
{
    if d < 10 {
        48 + d
    } else {
        55 + d
    }
}

/// Appends every byte of `src` to `out`, in order.
fn push_all(out: &mut Vec<u8>, src: &Vec<u8>)
    ensures
        final(out)@ == old(out)@ + src@,
{
    let mut i: usize = 0;
    while i < src.len()
        invariant
            i <= src@.len(),
            out@ == old(out)@ + src@.take(i as int),
        decreases src@.len() - i,
    {
        out.push(src[i]);
        proof {
            assert(old(out)@ + src@.take(i as int) + seq![src@[i as int]] =~= old(out)@
                + src@.take(i as int + 1));
        }
        i = i + 1;
    }
    proof {
        assert(src@.take(src@.len() as int) =~= src@);
    }
}

/// Appends `n` in exactly `width` hex digits, zero-padded.
fn push_hex_fixed(out: &mut Vec<u8>, n: u32, width: u32)
    ensures
        final(out)@ == old(out)@ + spec_hex_fixed(n as int, width as nat),
    decreases width,
{
    if width == 0 {
        proof {
            assert(out@ =~= out@ + spec_hex_fixed(n as int, 0));
        }
    } else {
        push_hex_fixed(out, n / 16, width - 1);
        out.push(hex_char_of((n % 16) as u8));
        proof {
            assert(old(out)@ + spec_hex_fixed(n as int / 16, (width - 1) as nat) + seq![
                hex_char(n as int % 16),
            ] =~= old(out)@ + spec_hex_fixed(n as int, width as nat));
        }
    }
}

/// Appends `n` in decimal, no padding.
fn push_dec(out: &mut Vec<u8>, n: u64)
    ensures
        final(out)@ == old(out)@ + spec_dec(n as nat),
    decreases n,
{
    if n < 10 {
        out.push(48 + n as u8);
        proof {
            assert(old(out)@ + seq![hex_char(n as int)] =~= old(out)@ + spec_dec(n as nat));
        }
    } else {
        push_dec(out, n / 10);
        out.push(48 + (n % 10) as u8);
        proof {
            assert(old(out)@ + spec_dec((n / 10) as nat) + seq![hex_char((n % 10) as int)] =~= old(
                out,
            )@ + spec_dec(n as nat));
        }
    }
}

/// Appends `n` in exactly `width` decimal digits, zero-padded.
fn push_dec_fixed(out: &mut Vec<u8>, n: u64, width: u32)
    ensures
        final(out)@ == old(out)@ + spec_dec_fixed(n as int, width as nat),
    decreases width,
{
    if width == 0 {
        proof {
            assert(out@ =~= out@ + spec_dec_fixed(n as int, 0));
        }
    } else {
        push_dec_fixed(out, n / 10, width - 1);
        out.push(48 + (n % 10) as u8);
        proof {
            assert(old(out)@ + spec_dec_fixed(n as int / 10, (width - 1) as nat) + seq![
                hex_char(n as int % 10),
            ] =~= old(out)@ + spec_dec_fixed(n as int, width as nat));
        }
    }
}

/// Relies on hex::encode_upper: each byte of the input becomes two uppercase
/// hexadecimal digits, high nibble first, in input order.
#[verifier::external_body]
fn hex_upper_bytes(b: &Vec<u8>) -> (r: Vec<u8>)
    ensures
        r@ == spec_hex_bytes(b@),
{
    hex::encode_upper(b).into_bytes()
}

/// Renders one frame as its canonical log line: header with the capture
/// time in seconds and six microsecond digits, the interface name, the
/// fixed-width identifier, and the body for the frame's kind. Deterministic
/// and byte-exact.
pub fn format_line(frame: &RawFrame, t: Timestamp, iface: &Vec<u8>) -> (r: Vec<u8>)
    requires
        frame.wf(),
    ensures
        r@ == spec_line(*frame, t, iface@),
{
    let mut out: Vec<u8> = Vec::new();
    out.push(40);
    push_dec(&mut out, t.micros / 1000000);
    out.push(46);
    push_dec_fixed(&mut out, t.micros % 1000000, 6);
    out.push(41);
    out.push(32);
    push_all(&mut out, iface);
    out.push(32);
    proof {
        assert(out@ =~= spec_header(t, iface@));
    }
    if frame.extended {
        push_hex_fixed(&mut out, frame.id, 8);
    } else {
        push_hex_fixed(&mut out, frame.id, 3);
    }
    out.push(35);
    match frame.kind {
        FrameKind::Remote => {
            out.push(82);
        },
        _ => {
            let body = hex_upper_bytes(&frame.payload);
            push_all(&mut out, &body);
        },
    }
    out.push(10);
    proof {
        assert(out@ =~= spec_line(*frame, t, iface@));
    }
    out
}

} // verus!
