//! Decision logic of the satellite utilities that watch the decoded
//! measurements: the system-clock synchronizer and the GPS-geofenced
//! shutdown scheduler. Both alternate bus reads with decisions; the
//! decisions are here, the I/O (reading frames, setting the clock, writing
//! the schedule file, measuring the geofence distance) stays with the
//! caller.

use vstd::prelude::*;

verus! {

/// How far apart, in nanoseconds, the system clock and the GPS clock may
/// drift before the synchronizer resets the system clock.
pub const CLOCK_SYNC_SLACK_NANOS: i64 = 2_000_000_000;

/// Whether the system clock needs to be set to GPS time: true exactly when
/// the two clocks are more than two seconds apart, in either direction.
pub fn needs_clock_sync(local_nanos: i64, gps_nanos: i64) -> (r: bool)
    ensures
        r <==> (local_nanos - gps_nanos > CLOCK_SYNC_SLACK_NANOS || gps_nanos - local_nanos
            > CLOCK_SYNC_SLACK_NANOS),
{
    let l: i128 = local_nanos as i128;
    let g: i128 = gps_nanos as i128;
    l - g > CLOCK_SYNC_SLACK_NANOS as i128 || g - l > CLOCK_SYNC_SLACK_NANOS as i128
}

/// What the shutdown scheduler does to its schedule file after a quiet
/// spell.
#[derive(Clone, Copy, Debug, PartialEq, Eq)]
pub enum ScheduleAction {
    /// Write this wall-clock second as the shutdown time.
    Schedule(u64),
    /// Remove any pending shutdown time.
    Clear,
    /// No new fix arrived; leave the file alone.
    NoChange,
}

/// The shutdown scheduler's state: a shutdown is armed only once the car has
/// left the shutdown area at least once and has since come back, and it
/// fires a fixed delay after the last fix inside the area.
#[derive(Clone, Copy, Debug, PartialEq, Eq, Structural)]
pub struct ShutdownMonitor {
    /// Seconds to wait after the last in-area fix before shutting down.
    pub delay_secs: u64,
    /// Whether the car has ever been seen outside the area.
    pub has_left_area: bool,
    /// Whether the most recent fix was inside the area.
    pub last_in_area: bool,
    /// The wall-clock second of the most recent fix.
    pub last_fix_secs: u64,
    /// Whether a fix arrived since the file was last updated.
    pub update_pending: bool,
}

impl ShutdownMonitor {
    /// The scheduled time never overflows.
    pub open spec fn wf(self) -> bool {
        self.last_fix_secs + self.delay_secs <= u64::MAX
    }

    /// A fresh monitor: no fix seen, nothing pending, the car not yet seen
    /// outside the area.
    pub fn new(delay_secs: u64) -> (r: ShutdownMonitor)
        ensures
            r == (ShutdownMonitor {
                delay_secs,
                has_left_area: false,
                last_in_area: false,
                last_fix_secs: 0,
                update_pending: false,
            }),
            r.wf(),
    {
        ShutdownMonitor {
            delay_secs,
            has_left_area: false,
            last_in_area: false,
            last_fix_secs: 0,
            update_pending: false,
        }
    }

    /// Records one GPS fix: whether it lies inside the shutdown area, and
    /// when it arrived. Seeing the car outside the area arms the scheduler
    /// for good.
    pub fn on_position(&mut self, in_area: bool, now_secs: u64)
        requires
            now_secs + old(self).delay_secs <= u64::MAX,
        ensures
            *final(self) == (ShutdownMonitor {
                last_in_area: in_area,
                last_fix_secs: now_secs,
                update_pending: true,
                has_left_area: old(self).has_left_area || !in_area,
                ..*old(self)
            }),
            final(self).wf(),
    {
        self.update_pending = true;
        self.last_fix_secs = now_secs;
        self.last_in_area = in_area;
        if !in_area {
            self.has_left_area = true;
        }
    }

    /// Decides the file update once the bus goes quiet: with a fresh fix
    /// inside the area after the car has been away, schedule the shutdown a
    /// fixed delay past that fix; with a fresh fix otherwise, clear the
    /// schedule; with no fresh fix, leave the file alone.
    pub fn on_quiet(&mut self) -> (a: ScheduleAction)
        requires
            old(self).wf(),
        ensures
            *final(self) == (ShutdownMonitor { update_pending: false, ..*old(self) }),
            a == (if !old(self).update_pending {
                ScheduleAction::NoChange
            } else if old(self).last_in_area && old(self).has_left_area {
                ScheduleAction::Schedule((old(self).last_fix_secs + old(self).delay_secs) as u64)
            } else {
                ScheduleAction::Clear
            }),
    {
        if !self.update_pending {
            ScheduleAction::NoChange
        } else {
            self.update_pending = false;
            if self.last_in_area && self.has_left_area {
                ScheduleAction::Schedule(self.last_fix_secs + self.delay_secs)
            } else {
                ScheduleAction::Clear
            }
        }
    }
}

} // verus!
