use vstd::prelude::*;
use crate::long_duration::LongDuration;

verus! {

/// The configuration of a run, fixed at startup.
#[derive(Debug)]
pub struct Settings {
    pub work_time: LongDuration,
    pub short_break_time: LongDuration,
    pub long_break_time: LongDuration,
    pub long_break_cycles: usize,
}

/// The mathematical content of `Settings`: durations in seconds.
pub struct SettingsModel {
    pub work: nat,
    pub short_break: nat,
    pub long_break: nat,
    pub cycles: nat,
}

impl View for Settings {
    type V = SettingsModel;

    open spec fn view(&self) -> SettingsModel {
        SettingsModel {
            work: self.work_time@,
            short_break: self.short_break_time@,
            long_break: self.long_break_time@,
            cycles: self.long_break_cycles as nat,
        }
    }
}

impl SettingsModel {
    /// A long break comes after a positive number of cycles.
    pub open spec fn wf(self) -> bool {
        self.cycles >= 1
    }
}

impl Default for Settings {
    /// 25 minutes of work, 5 of short break, 30 of long break, and a long
    /// break after every fourth cycle.
    fn default() -> (r: Self)
        ensures
            r@ == (SettingsModel { work: 1500, short_break: 300, long_break: 1800, cycles: 4 }),
    {
        Self {
            work_time: LongDuration::new_minutes(25),
            short_break_time: LongDuration::new_minutes(5),
            long_break_time: LongDuration::new_minutes(30),
            long_break_cycles: 4,
        }
    }
}

/// The run-time state of the timer.
#[derive(Debug)]
pub struct Status {
    pub time_completed_in_state: LongDuration,
    pub completed_pomodoros: usize,
    pub paused: bool,
    pub in_break: bool,
    pub hover_on_pause: bool,
}

/// The mathematical content of `Status`: elapsed time in seconds.
pub struct StatusModel {
    pub elapsed: nat,
    pub completed: nat,
    pub paused: bool,
    pub in_break: bool,
    pub hover: bool,
}

impl View for Status {
    type V = StatusModel;

    open spec fn view(&self) -> StatusModel {
        StatusModel {
            elapsed: self.time_completed_in_state@,
            completed: self.completed_pomodoros as nat,
            paused: self.paused,
            in_break: self.in_break,
            hover: self.hover_on_pause,
        }
    }
}

/// The state at startup: working, nothing elapsed or completed.
pub open spec fn initial_model() -> StatusModel {
    StatusModel { elapsed: 0, completed: 0, paused: false, in_break: false, hover: false }
}

/// A break counts as long when the completed cycles are a nonzero multiple of
/// the configured cycle count.
pub open spec fn long_break(st: SettingsModel, s: StatusModel) -> bool {
    s.completed != 0 && s.in_break && s.completed % st.cycles == 0
}

/// The length of the current break.
pub open spec fn break_target(st: SettingsModel, s: StatusModel) -> nat {
    if long_break(st, s) {
        st.long_break
    } else {
        st.short_break
    }
}

/// The length of the current phase.
pub open spec fn target(st: SettingsModel, s: StatusModel) -> nat {
    if s.in_break {
        break_target(st, s)
    } else {
        st.work
    }
}

/// Time left in the phase, with one minute added for display.
pub open spec fn remaining(st: SettingsModel, s: StatusModel) -> int {
    target(st, s) - s.elapsed + 60
}

/// Work time over the whole run: every completed cycle, plus the cycle that
/// a break follows, or the part of the current work phase.
pub open spec fn completed_work(st: SettingsModel, s: StatusModel) -> nat {
    s.completed * st.work + if s.in_break {
        st.work
    } else {
        s.elapsed
    }
}

/// The elapsed time never exceeds the length of the phase between ticks.
pub open spec fn within_phase(st: SettingsModel, s: StatusModel) -> bool {
    s.elapsed <= target(st, s)
}

/// One tick of `d` seconds.
pub open spec fn step(st: SettingsModel, s: StatusModel, d: nat) -> StatusModel {
    if s.paused {
        s
    } else if s.in_break {
        if s.elapsed + d > break_target(st, s) {
            StatusModel { elapsed: 0, completed: s.completed + 1, in_break: false, ..s }
        } else {
            StatusModel { elapsed: s.elapsed + d, ..s }
        }
    } else {
        if s.elapsed + d > st.work {
            StatusModel { elapsed: 0, in_break: true, ..s }
        } else {
            StatusModel { elapsed: s.elapsed + d, ..s }
        }
    }
}

impl Status {
    pub fn initial() -> (r: Self)
        ensures
            r@ == initial_model(),
    {
        Self {
            time_completed_in_state: LongDuration::new_seconds(0),
            completed_pomodoros: 0,
            paused: false,
            in_break: false,
            hover_on_pause: false,
        }
    }

    /// The length of the current phase: the work time, or the long or short
    /// break time.
    pub fn target_time(&self, settings: &Settings) -> (r: LongDuration)
        requires
            settings@.wf(),
        ensures
            r@ == target(settings@, self@),
    {
        let seconds = if !self.in_break {
            settings.work_time.seconds()
        } else if self.in_long_break(settings) {
            settings.long_break_time.seconds()
        } else {
            settings.short_break_time.seconds()
        };
        LongDuration::new_seconds(seconds)
    }

    pub fn in_long_break(&self, settings: &Settings) -> (r: bool)
        requires
            settings@.wf(),
        ensures
            r == long_break(settings@, self@),
    {
        if self.completed_pomodoros == 0 {
            return false;
        }
        self.in_break && ((self.completed_pomodoros % settings.long_break_cycles) == 0)
    }

    pub fn completed_work_time(&self, settings: &Settings) -> (r: LongDuration)
        requires
            completed_work(settings@, self@) <= u64::MAX,
        ensures
            r@ == completed_work(settings@, self@),
    {
        let c = self.completed_pomodoros as u64;
        let w = settings.work_time.seconds();
        proof {
            let extra: nat = if self.in_break { w as nat } else { self@.elapsed };
            assert(c * w <= c * w + extra) by (nonlinear_arith);
        }
        let base = LongDuration::new_seconds(c * w);
        if self.in_break {
            base.add(&settings.work_time)
        } else {
            base.add(&self.time_completed_in_state)
        }
    }

    pub fn remaining_time_in_state(&self, settings: &Settings) -> (r: LongDuration)
        requires
            settings@.wf(),
            within_phase(settings@, self@),
            target(settings@, self@) + 60 <= u64::MAX,
        ensures
            r@ == remaining(settings@, self@),
    {
        let left = if self.in_break {
            if self.in_long_break(settings) {
                settings.long_break_time.sub(&self.time_completed_in_state)
            } else {
                settings.short_break_time.sub(&self.time_completed_in_state)
            }
        } else {
            settings.work_time.sub(&self.time_completed_in_state)
        };
        left.add(&LongDuration::new_minutes(1))
    }

    /// Advances the timer by `delta` unless it is paused, and moves to the
    /// next phase once the current one has been exceeded.
    pub fn update(&mut self, settings: &Settings, delta: &LongDuration)
        requires
            settings@.wf(),
            !old(self).paused ==> old(self)@.elapsed + delta@ <= u64::MAX,
            !old(self).paused ==> old(self).completed_pomodoros < usize::MAX,
        ensures
            final(self)@ == step(settings@, old(self)@, delta@),
            old(self).paused ==> final(self)@ == old(self)@,
            final(self).completed_pomodoros >= old(self).completed_pomodoros,
            final(self).completed_pomodoros == old(self).completed_pomodoros + if old(self).in_break
                && !final(self).in_break {
                1int
            } else {
                0int
            },
            (final(self).in_break != old(self).in_break) <==> (!old(self).paused && old(self)@.elapsed
                + delta@ > target(settings@, old(self)@)),
            final(self)@.elapsed == 0 || final(self)@.elapsed == old(self)@.elapsed + if old(
                self,
            ).paused {
                0nat
            } else {
                delta@
            },
    {
        if self.paused {
            return;
        }
        self.time_completed_in_state = self.time_completed_in_state.add(delta);
        if self.in_break {
            let long = self.in_long_break(settings);
            let over = if long {
                self.time_completed_in_state.seconds() > settings.long_break_time.seconds()
            } else {
                self.time_completed_in_state.seconds() > settings.short_break_time.seconds()
            };
            if over {
                self.in_break = false;
                self.completed_pomodoros += 1;
                self.time_completed_in_state = LongDuration::new_seconds(0);
            }
        } else {
            if self.time_completed_in_state.seconds() > settings.work_time.seconds() {
                self.in_break = true;
                self.time_completed_in_state = LongDuration::new_seconds(0);
            }
        }
    }
}

} // verus!
