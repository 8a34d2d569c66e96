//! The recording pipeline's control-loop state machine.
//!
//! The control thread alternates bus reads with decisions; the decisions are
//! here, as a pure step function from session state and event to the next
//! state and the effects to perform (forward the frame, ask the worker to
//! flush or exit, write the indicator pin). The caller performs the I/O:
//! it reads the bus, drains the worker's error channel with priority, checks
//! the two signal flags once per iteration, and presents exactly one event
//! per iteration, signals first.
//!
//! Rotation is strict close-then-open: every rotating or terminating step
//! asks the worker to exit exactly once (`send_exit`), and a new session
//! only starts with [`arm`]. A writer failure of any kind forces rotation
//! and never terminates the process; a bus error frame reported by the
//! worker is logged but never forces rotation.

use vstd::prelude::*;

use crate::frame::{RawFrame, Timestamp};
use crate::indicator::Indicator;
use crate::writer::WriterFault;

verus! {

/// The pipeline's configuration: how many seconds of bus silence to allow
/// before rotating, and the line ceiling of one log file.
#[derive(Clone, Copy, Debug, PartialEq, Eq, Structural)]
pub struct PipelineConfig {
    pub idle_timeout_secs: u64,
    pub max_lines: u64,
}

impl PipelineConfig {
    /// Both limits are at least one and small enough that the countdown and
    /// the line counter never overflow.
    pub open spec fn wf(self) -> bool {
        &&& 1 <= self.idle_timeout_secs <= u64::MAX / 2
        &&& 1 <= self.max_lines < u64::MAX
    }
}

/// One open recording session: how many lines its file holds, how many
/// timed-out reads remain before idle rotation, and the indicator state.
#[derive(Clone, Copy, Debug, PartialEq, Eq, Structural)]
pub struct SessionState {
    pub lines: u64,
    pub countdown: u64,
    pub indicator: Indicator,
}

impl SessionState {
    pub open spec fn wf(self, cfg: PipelineConfig) -> bool {
        &&& 1 <= self.lines <= cfg.max_lines
        &&& 1 <= self.countdown <= 2 * cfg.idle_timeout_secs
        &&& self.indicator.wf()
    }
}

/// What one loop iteration observed, in the priority order the caller
/// checks: a signal flag, a report from the worker, or the bus read.
#[derive(Clone, Copy, Debug, PartialEq, Eq)]
pub enum SessionEvent {
    /// A frame arrived and was timestamped.
    FrameRead,
    /// The read timed out: one countdown tick of bus silence.
    ReadTimedOut,
    /// The read was interrupted by a signal; re-poll.
    ReadInterrupted,
    /// Any other transport failure: process-fatal.
    BusFatal,
    /// The worker reported a per-file fatal fault, or a send to it failed.
    WriterFailed(WriterFault),
    /// The worker relayed a bus error frame: recorded, never fatal.
    WriterCanError,
    /// The administrative rotate-now signal.
    HupSignal,
    /// The terminate signal.
    TermSignal,
}

/// Why a session rotated.
#[derive(Clone, Copy, Debug, PartialEq, Eq)]
pub enum RotateReason {
    /// The idle countdown ran out.
    IdleTimeout,
    /// The file reached its line ceiling.
    LineLimit,
    /// The administrative signal asked for rotation.
    AdminSignal,
    /// A per-file fatal writer fault.
    WriterError(WriterFault),
}

/// What becomes of the session after a step.
#[derive(Clone, Copy, Debug, PartialEq, Eq)]
pub enum SessionOutcome {
    /// Keep capturing into the same file.
    Continue,
    /// Close this file and return to waiting for a first frame.
    Rotate(RotateReason),
    /// Graceful shutdown: close the file, then stop the process.
    Terminate,
    /// Unrecoverable transport failure: the process dies.
    Fatal,
}

/// The effects of one step, for the caller to perform in order: forward the
/// just-read frame to the worker, ask the worker to flush, ask it to exit,
/// and write the indicator pin.
#[derive(Clone, Copy, Debug, PartialEq, Eq)]
pub struct StepEffect {
    pub forward_frame: bool,
    pub send_flush: bool,
    pub send_exit: bool,
    pub led_write: Option<bool>,
    pub outcome: SessionOutcome,
}

/// The session that starts when a first frame arrives on the idle read,
/// together with the pin write that lights the indicator: the first frame is
/// already forwarded, so its file holds one line, and the idle countdown is
/// seeded at twice the configured timeout (the capture read times out every
/// half second).
pub open spec fn spec_arm(cfg: PipelineConfig, pin: u16) -> (SessionState, Option<bool>) {
    (
        (SessionState {
            lines: 1,
            countdown: (2 * cfg.idle_timeout_secs) as u64,
            indicator: Indicator::spec_new(pin),
        }),
        if pin != 0 {
            Some(true)
        } else {
            None::<bool>
        },
    )
}

/// The pipeline's transition function: the next session state and the
/// effects of one event.
pub open spec fn spec_step(cfg: PipelineConfig, s: SessionState, ev: SessionEvent) -> (
    SessionState,
    StepEffect,
) {
    match ev {
        SessionEvent::TermSignal => {
            let (ind, w) = s.indicator.spec_off();
            (
                (SessionState { indicator: ind, ..s }),
                (StepEffect {
                    forward_frame: false,
                    send_flush: false,
                    send_exit: true,
                    led_write: w,
                    outcome: SessionOutcome::Terminate,
                }),
            )
        },
        SessionEvent::HupSignal => {
            let (ind, w) = s.indicator.spec_off();
            (
                (SessionState { indicator: ind, ..s }),
                (StepEffect {
                    forward_frame: false,
                    send_flush: false,
                    send_exit: true,
                    led_write: w,
                    outcome: SessionOutcome::Rotate(RotateReason::AdminSignal),
                }),
            )
        },
        SessionEvent::WriterFailed(f) => {
            let (ind, w) = s.indicator.spec_off();
            (
                (SessionState { indicator: ind, ..s }),
                (StepEffect {
                    forward_frame: false,
                    send_flush: false,
                    send_exit: true,
                    led_write: w,
                    outcome: SessionOutcome::Rotate(RotateReason::WriterError(f)),
                }),
            )
        },
        SessionEvent::WriterCanError => {
            (
                s,
                (StepEffect {
                    forward_frame: false,
                    send_flush: false,
                    send_exit: false,
                    led_write: None::<bool>,
                    outcome: SessionOutcome::Continue,
                }),
            )
        },
        SessionEvent::ReadInterrupted => {
            (
                s,
                (StepEffect {
                    forward_frame: false,
                    send_flush: false,
                    send_exit: false,
                    led_write: None::<bool>,
                    outcome: SessionOutcome::Continue,
                }),
            )
        },
        SessionEvent::BusFatal => {
            (
                s,
                (StepEffect {
                    forward_frame: false,
                    send_flush: false,
                    send_exit: false,
                    led_write: None::<bool>,
                    outcome: SessionOutcome::Fatal,
                }),
            )
        },
        SessionEvent::FrameRead => {
            let (ind, w) = s.indicator.spec_on_frame();
            let lines2 = (s.lines + 1) as u64;
            let cd2 = (2 * cfg.idle_timeout_secs) as u64;
            if lines2 >= cfg.max_lines {
                let (ind2, w2) = ind.spec_off();
                (
                    (SessionState { lines: lines2, countdown: cd2, indicator: ind2 }),
                    (StepEffect {
                        forward_frame: true,
                        send_flush: false,
                        send_exit: true,
                        led_write: w2,
                        outcome: SessionOutcome::Rotate(RotateReason::LineLimit),
                    }),
                )
            } else {
                (
                    (SessionState { lines: lines2, countdown: cd2, indicator: ind }),
                    (StepEffect {
                        forward_frame: true,
                        send_flush: false,
                        send_exit: false,
                        led_write: w,
                        outcome: SessionOutcome::Continue,
                    }),
                )
            }
        },
        SessionEvent::ReadTimedOut => {
            let cd2 = (s.countdown - 1) as u64;
            if cd2 == 0 {
                let ind1 = Indicator { busy: false, frame_counter: 0, ..s.indicator };
                let (ind2, w2) = ind1.spec_off();
                (
                    (SessionState { countdown: cd2, indicator: ind2, ..s }),
                    (StepEffect {
                        forward_frame: false,
                        send_flush: false,
                        send_exit: true,
                        led_write: w2,
                        outcome: SessionOutcome::Rotate(RotateReason::IdleTimeout),
                    }),
                )
            } else {
                let (ind, w) = s.indicator.spec_on_timeout(s.countdown);
                (
                    (SessionState { countdown: cd2, indicator: ind, ..s }),
                    (StepEffect {
                        forward_frame: false,
                        send_flush: s.countdown == 2,
                        send_exit: false,
                        led_write: w,
                        outcome: SessionOutcome::Continue,
                    }),
                )
            }
        },
    }
}

/// Starts a session on the first frame of a burst: one line already
/// forwarded, countdown seeded at twice the idle timeout, indicator lit.
pub fn arm(cfg: &PipelineConfig, pin: u16) -> (r: (SessionState, Option<bool>))
    requires
        cfg.wf(),
    ensures
        r == spec_arm(*cfg, pin),
        r.0.wf(*cfg),
{
    let state = SessionState {
        lines: 1,
        countdown: 2 * cfg.idle_timeout_secs,
        indicator: Indicator::new(pin),
    };
    let led = if pin != 0 {
        Some(true)
    } else {
        None
    };
    (state, led)
}

impl SessionState {
    /// One iteration of the capture loop. Beyond following the transition
    /// function exactly, the effects promise the loop's safety rules: the
    /// session terminates only on the terminate signal and dies only on a
    /// fatal transport failure; a writer fault of any kind rotates instead;
    /// a relayed bus error frame never rotates; every received frame is
    /// forwarded, even the one that fills the file; and the worker is asked
    /// to exit exactly on rotation or termination.
    pub fn step(&mut self, cfg: &PipelineConfig, ev: SessionEvent) -> (eff: StepEffect)
        requires
            cfg.wf(),
            old(self).wf(*cfg),
        ensures
            (*final(self), eff) == spec_step(*cfg, *old(self), ev),
            eff.outcome is Continue ==> final(self).wf(*cfg),
            eff.outcome is Terminate <==> ev is TermSignal,
            eff.outcome is Fatal <==> ev is BusFatal,
            ev is WriterFailed ==> eff.outcome is Rotate,
            ev is WriterCanError ==> eff.outcome is Continue,
            ev is FrameRead ==> eff.forward_frame,
            ev is FrameRead ==> final(self).lines == old(self).lines + 1,
            !(ev is FrameRead) ==> final(self).lines == old(self).lines,
            eff.send_exit <==> (eff.outcome is Rotate || eff.outcome is Terminate),
    {
        match ev {
            SessionEvent::TermSignal => {
                let w = self.indicator.off();
                StepEffect {
                    forward_frame: false,
                    send_flush: false,
                    send_exit: true,
                    led_write: w,
                    outcome: SessionOutcome::Terminate,
                }
            },
            SessionEvent::HupSignal => {
                let w = self.indicator.off();
                StepEffect {
                    forward_frame: false,
                    send_flush: false,
                    send_exit: true,
                    led_write: w,
                    outcome: SessionOutcome::Rotate(RotateReason::AdminSignal),
                }
            },
            SessionEvent::WriterFailed(f) => {
                let w = self.indicator.off();
                StepEffect {
                    forward_frame: false,
                    send_flush: false,
                    send_exit: true,
                    led_write: w,
                    outcome: SessionOutcome::Rotate(RotateReason::WriterError(f)),
                }
            },
            SessionEvent::WriterCanError => {
                StepEffect {
                    forward_frame: false,
                    send_flush: false,
                    send_exit: false,
                    led_write: None,
                    outcome: SessionOutcome::Continue,
                }
            },
            SessionEvent::ReadInterrupted => {
                StepEffect {
                    forward_frame: false,
                    send_flush: false,
                    send_exit: false,
                    led_write: None,
                    outcome: SessionOutcome::Continue,
                }
            },
            SessionEvent::BusFatal => {
                StepEffect {
                    forward_frame: false,
                    send_flush: false,
                    send_exit: false,
                    led_write: None,
                    outcome: SessionOutcome::Fatal,
                }
            },
            SessionEvent::FrameRead => {
                let w = self.indicator.on_frame();
                self.lines = self.lines + 1;
                self.countdown = 2 * cfg.idle_timeout_secs;
                if self.lines >= cfg.max_lines {
                    let w2 = self.indicator.off();
                    StepEffect {
                        forward_frame: true,
                        send_flush: false,
                        send_exit: true,
                        led_write: w2,
                        outcome: SessionOutcome::Rotate(RotateReason::LineLimit),
                    }
                } else {
                    StepEffect {
                        forward_frame: true,
                        send_flush: false,
                        send_exit: false,
                        led_write: w,
                        outcome: SessionOutcome::Continue,
                    }
                }
            },
            SessionEvent::ReadTimedOut => {
                let before = self.countdown;
                self.countdown = self.countdown - 1;
                if self.countdown == 0 {
                    self.indicator.busy = false;
                    self.indicator.frame_counter = 0;
                    let w2 = self.indicator.off();
                    StepEffect {
                        forward_frame: false,
                        send_flush: false,
                        send_exit: true,
                        led_write: w2,
                        outcome: SessionOutcome::Rotate(RotateReason::IdleTimeout),
                    }
                } else {
                    let w = self.indicator.on_timeout(before);
                    StepEffect {
                        forward_frame: false,
                        send_flush: before == 2,
                        send_exit: false,
                        led_write: w,
                        outcome: SessionOutcome::Continue,
                    }
                }
            },
        }
    }
}

/// The session after `k` consecutive timed-out reads.
pub open spec fn run_timeouts(cfg: PipelineConfig, s: SessionState, k: nat) -> SessionState
    decreases k,
{
    if k == 0 {
        s
    } else {
        spec_step(cfg, run_timeouts(cfg, s, (k - 1) as nat), SessionEvent::ReadTimedOut).0
    }
}

/// The session after `k` consecutive received frames.
pub open spec fn run_frames(cfg: PipelineConfig, s: SessionState, k: nat) -> SessionState
    decreases k,
{
    if k == 0 {
        s
    } else {
        spec_step(cfg, run_frames(cfg, s, (k - 1) as nat), SessionEvent::FrameRead).0
    }
}

/// Idle-timeout rotation. From a fresh session (countdown seeded at twice
/// the idle timeout `T`), a run of nothing but timed-out reads decrements
/// the countdown one tick per read: the first `2T - 1` such reads continue
/// the session, the `2T`-th brings the countdown to zero and rotates it for
/// the idle timeout, and the proactive flush goes out exactly on the read
/// before that — two ticks before expiry, one read ahead of the rotation.
pub proof fn lemma_idle_timeout_rotation(cfg: PipelineConfig, s: SessionState, k: nat)
    requires
        cfg.wf(),
        s.wf(cfg),
        s.countdown == 2 * cfg.idle_timeout_secs,
        k <= 2 * cfg.idle_timeout_secs - 1,
    ensures
        run_timeouts(cfg, s, k).countdown == 2 * cfg.idle_timeout_secs - k,
        run_timeouts(cfg, s, k).wf(cfg),
        run_timeouts(cfg, s, k).lines == s.lines,
        k < 2 * cfg.idle_timeout_secs - 1 ==> spec_step(
            cfg,
            run_timeouts(cfg, s, k),
            SessionEvent::ReadTimedOut,
        ).1.outcome is Continue,
        k == 2 * cfg.idle_timeout_secs - 1 ==> spec_step(
            cfg,
            run_timeouts(cfg, s, k),
            SessionEvent::ReadTimedOut,
        ).1.outcome == SessionOutcome::Rotate(RotateReason::IdleTimeout),
        spec_step(cfg, run_timeouts(cfg, s, k), SessionEvent::ReadTimedOut).1.send_flush <==> k
            == 2 * cfg.idle_timeout_secs - 2,
    decreases k,
{
    if k > 0 {
        lemma_idle_timeout_rotation(cfg, s, (k - 1) as nat);
    }
}

/// Line-count rotation. While a session's file stays under the configured
/// ceiling, every received frame is forwarded and counted; the frame that
/// brings the count to the ceiling is still forwarded, and exactly that step
/// rotates the file for the line limit, so a file never exceeds its ceiling
/// and the next frame lands in a new file.
pub proof fn lemma_line_limit_rotation(cfg: PipelineConfig, s: SessionState, k: nat)
    requires
        cfg.wf(),
        s.wf(cfg),
        s.lines + k <= cfg.max_lines,
    ensures
        run_frames(cfg, s, k).lines == s.lines + k,
        run_frames(cfg, s, k).wf(cfg),
        spec_step(cfg, run_frames(cfg, s, k), SessionEvent::FrameRead).1.forward_frame,
        spec_step(cfg, run_frames(cfg, s, k), SessionEvent::FrameRead).1.outcome == (
        if s.lines + k + 1 >= cfg.max_lines {
            SessionOutcome::Rotate(RotateReason::LineLimit)
        } else {
            SessionOutcome::Continue
        }),
    decreases k,
{
    if k > 0 {
        lemma_line_limit_rotation(cfg, s, (k - 1) as nat);
    }
}

/// Worker failure resilience: any writer fault — a degenerate write, a disk
/// failure, or a broken channel — makes the session rotate and surface that
/// fault; it never terminates the process, and the worker is told to exit so
/// the rotation cannot deadlock on it.
pub proof fn lemma_writer_fault_rotates(cfg: PipelineConfig, s: SessionState, f: WriterFault)
    ensures
        spec_step(cfg, s, SessionEvent::WriterFailed(f)).1.outcome == SessionOutcome::Rotate(
            RotateReason::WriterError(f),
        ),
        !(spec_step(cfg, s, SessionEvent::WriterFailed(f)).1.outcome is Terminate),
        !(spec_step(cfg, s, SessionEvent::WriterFailed(f)).1.outcome is Fatal),
        spec_step(cfg, s, SessionEvent::WriterFailed(f)).1.send_exit,
{
}

/// The process stops only when asked: a session step terminates exactly on
/// the terminate signal and dies exactly on a fatal transport failure.
pub proof fn lemma_terminate_only_on_signal(cfg: PipelineConfig, s: SessionState, ev: SessionEvent)
    ensures
        spec_step(cfg, s, ev).1.outcome is Terminate <==> ev is TermSignal,
        spec_step(cfg, s, ev).1.outcome is Fatal <==> ev is BusFatal,
{
}

/// The indicator shows "capturing" only while the session does: every
/// rotating or terminating step on an enabled indicator ends with the light
/// written off.
pub proof fn lemma_rotation_turns_indicator_off(
    cfg: PipelineConfig,
    s: SessionState,
    ev: SessionEvent,
)
    requires
        s.indicator.enabled(),
    ensures
        ({
            let eff = spec_step(cfg, s, ev).1;
            (eff.outcome is Rotate || eff.outcome is Terminate) ==> {
                &&& eff.led_write == Some(false)
                &&& !spec_step(cfg, s, ev).0.indicator.lit
            }
        }),
{
}

/// While frames keep coming, an enabled indicator keeps showing
/// "capturing": the step on a received frame always leaves the capture burst
/// marked, and while the session continues the light is controlled by the
/// heartbeat alone.
pub proof fn lemma_capturing_shows_on_indicator(
    cfg: PipelineConfig,
    s: SessionState,
)
    requires
        s.indicator.enabled(),
    ensures
        spec_step(cfg, s, SessionEvent::FrameRead).0.indicator.busy,
{
}

/// What the idle loop saw on its long-timeout, accept-all read.
#[derive(Clone, Copy, Debug, PartialEq, Eq)]
pub enum IdleEvent {
    FrameRead,
    ReadTimedOut,
    ReadInterrupted,
    BusFatal,
    TermSignal,
}

/// What the idle loop does next.
#[derive(Clone, Copy, Debug, PartialEq, Eq)]
pub enum IdleOutcome {
    /// A first frame arrived: arm a session around it.
    StartSession,
    /// Keep waiting with the indicator off.
    StayIdle,
    /// Graceful shutdown.
    Terminate,
    /// Unrecoverable transport failure.
    Fatal,
}

/// The idle state's transition: a first frame arms a session, quiet reads
/// and interruptions keep waiting, and only the terminate signal or a fatal
/// transport failure end the process.
pub fn idle_step(ev: IdleEvent) -> (r: IdleOutcome)
    ensures
        r is StartSession <==> ev is FrameRead,
        r is Terminate <==> ev is TermSignal,
        r is Fatal <==> ev is BusFatal,
        r is StayIdle <==> (ev is ReadTimedOut || ev is ReadInterrupted),
{
    match ev {
        IdleEvent::FrameRead => IdleOutcome::StartSession,
        IdleEvent::ReadTimedOut => IdleOutcome::StayIdle,
        IdleEvent::ReadInterrupted => IdleOutcome::StayIdle,
        IdleEvent::BusFatal => IdleOutcome::Fatal,
        IdleEvent::TermSignal => IdleOutcome::Terminate,
    }
}

/// One message on the control-to-worker channel, in arrival order; the
/// worker writes frames in exactly this order, which keeps timestamps
/// non-decreasing within a file.
#[derive(Clone, Debug)]
pub enum LogMessage {
    /// No-op keepalive.
    Ping,
    /// Log this frame with its capture time.
    Frame(RawFrame, Timestamp),
    /// Flush buffered bytes to disk now.
    Flush,
    /// Flush and stop; the file is closed.
    Exit,
}

} // verus!
