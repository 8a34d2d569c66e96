use carlogger::indicator::Indicator;
use carlogger::monitor::{needs_clock_sync, ScheduleAction, ShutdownMonitor};
use carlogger::pipeline::{
    arm, idle_step, IdleEvent, IdleOutcome, PipelineConfig, RotateReason, SessionEvent,
    SessionOutcome,
};
use carlogger::writer::WriterFault;

fn cfg(timeout: u64, max_lines: u64) -> PipelineConfig {
    PipelineConfig { idle_timeout_secs: timeout, max_lines }
}

#[test]
fn arming_seeds_the_session() {
    let (state, led) = arm(&cfg(15, 16_777_216), 22);
    assert_eq!(state.lines, 1);
    assert_eq!(state.countdown, 30);
    assert_eq!(led, Some(true));
    let (_, led_off) = arm(&cfg(15, 16_777_216), 0);
    assert_eq!(led_off, None);
}

#[test]
fn line_count_rotation_after_three_lines() {
    // max-lines 3: the file takes lines 1, 2 and 3, the step that writes the
    // third rotates, and the next frame lands in a freshly armed session.
    let c = cfg(15, 3);
    let (mut s, _) = arm(&c, 0);
    let eff = s.step(&c, SessionEvent::FrameRead);
    assert!(eff.forward_frame);
    assert_eq!(eff.outcome, SessionOutcome::Continue);
    assert_eq!(s.lines, 2);
    let eff = s.step(&c, SessionEvent::FrameRead);
    assert!(eff.forward_frame);
    assert_eq!(eff.outcome, SessionOutcome::Rotate(RotateReason::LineLimit));
    assert!(eff.send_exit);
    assert_eq!(s.lines, 3);
    let (fresh, _) = arm(&c, 0);
    assert_eq!(fresh.lines, 1);
}

#[test]
fn idle_timeout_rotation_after_twice_the_timeout() {
    // idle-timeout 2 seconds seeds a countdown of 4 ticks: the first three
    // quiet reads count down (the flush goes out two ticks before expiry, on
    // the third), and the fourth read reaches zero and rotates.
    let c = cfg(2, 100);
    let (mut s, _) = arm(&c, 0);
    let mut flushes: Vec<u64> = Vec::new();
    for tick in 1u64..=3 {
        let eff = s.step(&c, SessionEvent::ReadTimedOut);
        assert_eq!(eff.outcome, SessionOutcome::Continue);
        if eff.send_flush {
            flushes.push(tick);
        }
    }
    assert_eq!(flushes, vec![3]);
    assert_eq!(s.countdown, 1);
    let eff = s.step(&c, SessionEvent::ReadTimedOut);
    assert_eq!(eff.outcome, SessionOutcome::Rotate(RotateReason::IdleTimeout));
    assert!(eff.send_exit);
    assert!(!eff.send_flush);
}

#[test]
fn a_frame_reseeds_the_idle_countdown() {
    let c = cfg(2, 100);
    let (mut s, _) = arm(&c, 0);
    s.step(&c, SessionEvent::ReadTimedOut);
    s.step(&c, SessionEvent::ReadTimedOut);
    assert_eq!(s.countdown, 2);
    s.step(&c, SessionEvent::FrameRead);
    assert_eq!(s.countdown, 4);
}

#[test]
fn broken_channel_rotates_and_never_terminates() {
    let c = cfg(15, 100);
    let (mut s, _) = arm(&c, 22);
    let eff = s.step(&c, SessionEvent::WriterFailed(WriterFault::ChannelBroken));
    assert_eq!(
        eff.outcome,
        SessionOutcome::Rotate(RotateReason::WriterError(WriterFault::ChannelBroken))
    );
    assert!(eff.send_exit);
    assert_eq!(eff.led_write, Some(false));
}

#[test]
fn writer_faults_rotate_for_every_kind() {
    let c = cfg(15, 100);
    for fault in [WriterFault::Degenerate, WriterFault::Io, WriterFault::ChannelBroken] {
        let (mut s, _) = arm(&c, 0);
        let eff = s.step(&c, SessionEvent::WriterFailed(fault));
        assert_eq!(eff.outcome, SessionOutcome::Rotate(RotateReason::WriterError(fault)));
    }
}

#[test]
fn relayed_bus_error_frames_never_rotate() {
    let c = cfg(15, 100);
    let (mut s, _) = arm(&c, 0);
    let eff = s.step(&c, SessionEvent::WriterCanError);
    assert_eq!(eff.outcome, SessionOutcome::Continue);
    assert!(!eff.send_exit);
    assert_eq!(s.lines, 1);
}

#[test]
fn signals_terminate_or_rotate() {
    let c = cfg(15, 100);
    let (mut s, _) = arm(&c, 22);
    let eff = s.step(&c, SessionEvent::HupSignal);
    assert_eq!(eff.outcome, SessionOutcome::Rotate(RotateReason::AdminSignal));
    let (mut s, _) = arm(&c, 22);
    let eff = s.step(&c, SessionEvent::TermSignal);
    assert_eq!(eff.outcome, SessionOutcome::Terminate);
    assert!(eff.send_exit);
    assert_eq!(eff.led_write, Some(false));
}

#[test]
fn interrupted_reads_and_fatal_failures() {
    let c = cfg(15, 100);
    let (mut s, _) = arm(&c, 0);
    let eff = s.step(&c, SessionEvent::ReadInterrupted);
    assert_eq!(eff.outcome, SessionOutcome::Continue);
    let eff = s.step(&c, SessionEvent::BusFatal);
    assert_eq!(eff.outcome, SessionOutcome::Fatal);
    assert!(!eff.send_exit);
}

#[test]
fn idle_loop_reacts_to_each_event() {
    assert_eq!(idle_step(IdleEvent::FrameRead), IdleOutcome::StartSession);
    assert_eq!(idle_step(IdleEvent::ReadTimedOut), IdleOutcome::StayIdle);
    assert_eq!(idle_step(IdleEvent::ReadInterrupted), IdleOutcome::StayIdle);
    assert_eq!(idle_step(IdleEvent::TermSignal), IdleOutcome::Terminate);
    assert_eq!(idle_step(IdleEvent::BusFatal), IdleOutcome::Fatal);
}

#[test]
fn indicator_heartbeat_toggles_every_hundred_frames() {
    let mut ind = Indicator::new(22);
    assert_eq!(ind.on_frame(), Some(true));
    for _ in 0..98 {
        assert_eq!(ind.on_frame(), None);
    }
    // the hundredth frame of the burst toggles the light off
    assert_eq!(ind.on_frame(), Some(false));
    for _ in 0..99 {
        assert_eq!(ind.on_frame(), None);
    }
    assert_eq!(ind.on_frame(), Some(true));
}

#[test]
fn indicator_blinks_with_countdown_parity_and_relights() {
    let mut ind = Indicator::new(22);
    assert_eq!(ind.on_frame(), Some(true));
    // even countdown toggles, odd rewrites the same level
    assert_eq!(ind.on_timeout(30), Some(false));
    assert_eq!(ind.on_timeout(29), Some(false));
    assert_eq!(ind.on_timeout(28), Some(true));
    // the next frame after a quiet spell lights the indicator again
    assert_eq!(ind.on_frame(), Some(true));
    assert_eq!(ind.off(), Some(false));
}

#[test]
fn disabled_indicator_never_writes_the_pin() {
    let mut ind = Indicator::new(0);
    for _ in 0..250 {
        assert_eq!(ind.on_frame(), None);
    }
    assert_eq!(ind.on_timeout(4), None);
    assert_eq!(ind.off(), None);
}

#[test]
fn clock_sync_triggers_past_two_seconds_either_way() {
    assert!(!needs_clock_sync(0, 0));
    assert!(!needs_clock_sync(0, 2_000_000_000));
    assert!(!needs_clock_sync(2_000_000_000, 0));
    assert!(needs_clock_sync(0, 2_000_000_001));
    assert!(needs_clock_sync(2_000_000_001, 0));
    assert!(needs_clock_sync(i64::MIN, i64::MAX));
}

#[test]
fn shutdown_scheduler_arms_only_after_leaving_the_area() {
    let mut m = ShutdownMonitor::new(900);
    assert_eq!(m.on_quiet(), ScheduleAction::NoChange);
    m.on_position(true, 100);
    assert_eq!(m.on_quiet(), ScheduleAction::Clear);
    m.on_position(false, 200);
    assert_eq!(m.on_quiet(), ScheduleAction::Clear);
    m.on_position(true, 300);
    assert_eq!(m.on_quiet(), ScheduleAction::Schedule(1200));
    assert_eq!(m.on_quiet(), ScheduleAction::NoChange);
}
