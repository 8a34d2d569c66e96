//! The hardware status indicator: one boolean output pin that shows
//! "capturing" as solid on with a heartbeat blink every fixed number of
//! frames, blinks with the idle countdown's parity while the bus is quiet,
//! and is off otherwise. Pin number zero disables it: no write is ever
//! issued.
//!
//! Methods return the pin write to perform (`Some(level)`) rather than
//! touching hardware; the caller owns the pin.

use vstd::prelude::*;

verus! {

/// How many frames pass between heartbeat toggles while capturing.
pub const HEARTBEAT_FRAMES: u32 = 100;

/// The indicator's state: the configured pin, the level last set, whether a
/// capture burst is in progress, and the heartbeat frame counter.
#[derive(Clone, Copy, Debug, PartialEq, Eq, Structural)]
pub struct Indicator {
    pub pin: u16,
    pub lit: bool,
    pub busy: bool,
    pub frame_counter: u32,
}

impl Indicator {
    /// The indicator acts only when a real pin is configured.
    pub open spec fn enabled(self) -> bool {
        self.pin != 0
    }

    /// The heartbeat counter stays below its period.
    pub open spec fn wf(self) -> bool {
        self.frame_counter < HEARTBEAT_FRAMES
    }

    /// A fresh indicator for one recording session.
    pub open spec fn spec_new(pin: u16) -> Indicator {
        Indicator { pin, lit: false, busy: false, frame_counter: 0 }
    }

    /// The state and pin write after a frame arrives: the first frame of a
    /// burst turns the light on solid; after that every
    /// [`HEARTBEAT_FRAMES`]-th frame toggles it as a heartbeat.
    pub open spec fn spec_on_frame(self) -> (Indicator, Option<bool>) {
        if !self.enabled() {
            (self, None::<bool>)
        } else if !self.busy {
            ((Indicator { busy: true, frame_counter: 1, lit: true, ..self }), Some(true))
        } else if self.frame_counter + 1 >= HEARTBEAT_FRAMES {
            ((Indicator { frame_counter: 0, lit: !self.lit, ..self }), Some(!self.lit))
        } else {
            ((Indicator { frame_counter: (self.frame_counter + 1) as u32, ..self }), None::<bool>)
        }
    }

    /// The state and pin write after a timed-out read: the burst ends, and
    /// the light blinks with the countdown's parity (the level is rewritten
    /// on every tick).
    pub open spec fn spec_on_timeout(self, countdown: u64) -> (Indicator, Option<bool>) {
        let level = if countdown % 2 == 0 {
            !self.lit
        } else {
            self.lit
        };
        if self.enabled() {
            ((Indicator { busy: false, frame_counter: 0, lit: level, ..self }), Some(level))
        } else {
            ((Indicator { busy: false, frame_counter: 0, ..self }), None::<bool>)
        }
    }

    /// The state and pin write that turn the indicator off (idle, draining,
    /// termination).
    pub open spec fn spec_off(self) -> (Indicator, Option<bool>) {
        if self.enabled() {
            ((Indicator { lit: false, ..self }), Some(false))
        } else {
            (self, None::<bool>)
        }
    }

    /// A fresh indicator; the light is off and no burst is in progress.
    pub fn new(pin: u16) -> (r: Indicator)
        ensures
            r == Indicator::spec_new(pin),
            r.wf(),
    {
        Indicator { pin, lit: false, busy: false, frame_counter: 0 }
    }

    /// Advances the heartbeat on a received frame; returns the pin write to
    /// perform, if any. Disabled indicators never ask for a write.
    pub fn on_frame(&mut self) -> (w: Option<bool>)
        requires
            old(self).wf(),
        ensures
            (*final(self), w) == old(self).spec_on_frame(),
            final(self).wf(),
            !old(self).enabled() ==> w is None,
    {
        if self.pin == 0 {
            None
        } else if !self.busy {
            self.busy = true;
            self.frame_counter = 1;
            self.lit = true;
            Some(true)
        } else if self.frame_counter + 1 >= HEARTBEAT_FRAMES {
            self.frame_counter = 0;
            self.lit = !self.lit;
            Some(self.lit)
        } else {
            self.frame_counter = self.frame_counter + 1;
            None
        }
    }

    /// Ends the capture burst on a timed-out read and blinks with the
    /// countdown's parity; returns the pin write to perform, if any.
    pub fn on_timeout(&mut self, countdown: u64) -> (w: Option<bool>)
        requires
            old(self).wf(),
        ensures
            (*final(self), w) == old(self).spec_on_timeout(countdown),
            final(self).wf(),
            !old(self).enabled() ==> w is None,
    {
        self.busy = false;
        self.frame_counter = 0;
        if self.pin == 0 {
            None
        } else {
            if countdown % 2 == 0 {
                self.lit = !self.lit;
            }
            Some(self.lit)
        }
    }

    /// Turns the indicator off; returns the pin write to perform, if any.
    pub fn off(&mut self) -> (w: Option<bool>)
        requires
            old(self).wf(),
        ensures
            (*final(self), w) == old(self).spec_off(),
            final(self).wf(),
            !old(self).enabled() ==> w is None,
    {
        if self.pin == 0 {
            None
        } else {
            self.lit = false;
            Some(false)
        }
    }
}

} // verus!
