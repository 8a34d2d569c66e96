//! The log-writer model: one open log file's buffered output, append-only.
//!
//! The writer owns the bytes not yet handed to the operating system and the
//! last timestamp it attached, so that timestamps within one file never
//! decrease (a regressing clock is clamped to the previous value). The file
//! descriptor itself lives outside the library; callers take the buffered
//! bytes from [`Logger::flush`] and [`Logger::drain_if_full`] and report the
//! write result back through [`classify_write`].

use vstd::prelude::*;

use crate::format::{format_line, spec_line};
use crate::frame::{RawFrame, Timestamp};

verus! {

/// The per-file fatal writer failures: each forces a rotation of the open
/// log file, never process termination.
#[derive(Clone, Copy, Debug, PartialEq, Eq, Structural)]
pub enum WriterFault {
    /// A write of zero bytes for a non-empty line.
    Degenerate,
    /// A disk failure.
    Io,
    /// The worker or its channel is gone.
    ChannelBroken,
}

/// A capture time clamped so it never precedes the previous line's.
pub open spec fn clamp_stamp(last: u64, t: u64) -> u64 {
    if t < last {
        last
    } else {
        t
    }
}

/// One log file's writer: the interface name it stamps on every line, the
/// bytes buffered since the last flush, the flush threshold, and the last
/// timestamp written.
pub struct Logger {
    iface: Vec<u8>,
    buf: Vec<u8>,
    buf_cap: usize,
    last_micros: u64,
}

impl Logger {
    /// The interface name stamped on every line.
    pub closed spec fn iface_name(self) -> Seq<u8> {
        self.iface@
    }

    /// The bytes logged but not yet flushed.
    pub closed spec fn buffered(self) -> Seq<u8> {
        self.buf@
    }

    /// The buffer size above which `drain_if_full` hands bytes out.
    pub closed spec fn write_cap(self) -> int {
        self.buf_cap as int
    }

    /// The timestamp attached to the most recent line (zero before the
    /// first).
    pub closed spec fn last_stamp(self) -> u64 {
        self.last_micros
    }

    /// A fresh writer for one log file: empty buffer, no line written yet.
    pub fn new(iface: Vec<u8>, buf_size: usize) -> (l: Logger)
        ensures
            l.iface_name() == iface@,
            l.buffered() == Seq::<u8>::empty(),
            l.write_cap() == buf_size,
            l.last_stamp() == 0,
    {
        Logger { iface, buf: Vec::new(), buf_cap: buf_size, last_micros: 0 }
    }

    /// Appends the frame's canonical log line to the buffer and returns its
    /// length. The attached timestamp is the capture time clamped to the
    /// previous line's, so timestamps within one file never decrease.
    pub fn log(&mut self, frame: &RawFrame, t: Timestamp) -> (n: usize)
        requires
            frame.wf(),
        ensures
            ({
                let ct = clamp_stamp(old(self).last_stamp(), t.micros);
                let line = spec_line(*frame, (Timestamp { micros: ct }), old(self).iface_name());
                &&& final(self).last_stamp() == ct
                &&& ct >= old(self).last_stamp()
                &&& final(self).buffered() == old(self).buffered() + line
                &&& n == line.len()
                &&& final(self).iface_name() == old(self).iface_name()
                &&& final(self).write_cap() == old(self).write_cap()
            }),
    {
        let ct: u64 = if t.micros < self.last_micros {
            self.last_micros
        } else {
            t.micros
        };
        self.last_micros = ct;
        let mut line = format_line(frame, Timestamp { micros: ct }, &self.iface);
        let n = line.len();
        self.buf.append(&mut line);
        n
    }

    /// Hands out everything buffered once the threshold is reached, the way
    /// a buffered file writer spills to disk; below the threshold nothing
    /// changes.
    pub fn drain_if_full(&mut self) -> (out: Option<Vec<u8>>)
        ensures
            old(self).buffered().len() >= old(self).write_cap() ==> {
                &&& out is Some
                &&& out->0@ == old(self).buffered()
                &&& final(self).buffered() == Seq::<u8>::empty()
            },
            old(self).buffered().len() < old(self).write_cap() ==> {
                &&& out is None
                &&& final(self).buffered() == old(self).buffered()
            },
            final(self).iface_name() == old(self).iface_name(),
            final(self).write_cap() == old(self).write_cap(),
            final(self).last_stamp() == old(self).last_stamp(),
    {
        if self.buf.len() >= self.buf_cap {
            let mut out: Vec<u8> = Vec::new();
            out.append(&mut self.buf);
            Some(out)
        } else {
            None
        }
    }

    /// Empties the buffer and hands its bytes out for the disk write.
    /// Flushing an already-flushed writer succeeds trivially: nothing comes
    /// out and nothing changes.
    pub fn flush(&mut self) -> (out: Vec<u8>)
        ensures
            out@ == old(self).buffered(),
            final(self).buffered() == Seq::<u8>::empty(),
            final(self).iface_name() == old(self).iface_name(),
            final(self).write_cap() == old(self).write_cap(),
            final(self).last_stamp() == old(self).last_stamp(),
            old(self).buffered().len() == 0 ==> out@ == Seq::<u8>::empty(),
    {
        let mut out: Vec<u8> = Vec::new();
        out.append(&mut self.buf);
        out
    }
}

/// Classifies the byte count the operating system reported for one line:
/// zero bytes written for a non-empty line is the distinct degenerate-writer
/// failure, anything else is success. (An I/O error is reported by the
/// caller as [`WriterFault::Io`] before any count exists.)
pub fn classify_write(line_len: usize, written: usize) -> (r: Option<WriterFault>)
    ensures
        r == (if written == 0 && line_len > 0 {
            Some(WriterFault::Degenerate)
        } else {
            None::<WriterFault>
        }),
{
    if written == 0 && line_len > 0 {
        Some(WriterFault::Degenerate)
    } else {
        None
    }
}

} // verus!
