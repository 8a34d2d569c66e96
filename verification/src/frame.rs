//! Raw CAN traffic as the recording pipeline sees it: a frame with an
//! arbitration identifier, up to eight payload bytes and a kind, plus the
//! capture timestamp attached to it.

use vstd::prelude::*;

verus! {

/// The three kinds of bus frame the transport can deliver.
#[derive(Clone, Copy, Debug, PartialEq, Eq)]
pub enum FrameKind {
    /// An ordinary data frame.
    Data,
    /// A remote (return request) frame; it carries no payload of interest.
    Remote,
    /// An error frame reported by the controller.
    Error,
}

/// One frame as read off the bus, immutable once captured.
#[derive(Clone, Debug)]
pub struct RawFrame {
    /// Arbitration identifier: 11 bits for a standard frame, 29 for an
    /// extended one.
    pub id: u32,
    /// Whether the identifier is extended (29-bit).
    pub extended: bool,
    /// What kind of frame this is.
    pub kind: FrameKind,
    /// Payload bytes, at most eight.
    pub payload: Vec<u8>,
}

impl RawFrame {
    /// A frame is well formed when its identifier fits the advertised width
    /// and its payload fits a CAN frame.
    pub open spec fn wf(self) -> bool {
        &&& self.payload@.len() <= 8
        &&& (self.extended ==> self.id < 0x2000_0000)
        &&& (!self.extended ==> self.id < 0x800)
    }

    /// Builds a frame, rejecting an identifier too wide for its flag or a
    /// payload longer than eight bytes.
    pub fn new(id: u32, extended: bool, kind: FrameKind, payload: Vec<u8>) -> (r: Option<RawFrame>)
        ensures
            r is Some <==> (payload@.len() <= 8
                && (extended ==> id < 0x2000_0000)
                && (!extended ==> id < 0x800)),
            r is Some ==> {
                &&& r->0.id == id
                &&& r->0.extended == extended
                &&& r->0.kind == kind
                &&& r->0.payload@ == payload@
                &&& r->0.wf()
            },
    {
        if payload.len() <= 8 && (if extended { id < 0x2000_0000 } else { id < 0x800 }) {
            Some(RawFrame { id, extended, kind, payload })
        } else {
            None
        }
    }
}

/// Time since the fixed epoch at which a frame was captured, in microseconds.
#[derive(Clone, Copy, Debug, PartialEq, Eq, Structural)]
pub struct Timestamp {
    /// Whole microseconds since the epoch.
    pub micros: u64,
}

} // verus!
