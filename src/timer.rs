//! The timer state machine: elapsed minutes counted against the wall clock,
//! pause and resume, and the hand-over from phase to phase and session to
//! session.

use vstd::prelude::*;
use crate::config::{Phase, SessionConfig};
use crate::input::Command;

verus! {

/// Milliseconds in one minute of the timer.
pub const MS_PER_MINUTE: u64 = 60000;

/// Whether the run goes on, and if not, how it ended.
#[derive(Clone, Copy, Debug, PartialEq, Eq, Structural)]
pub enum RunStatus {
    Running,
    /// Every session was worked and rested.
    Completed,
    /// The user quit.
    Interrupted,
}

/// What happened when a phase reached its configured length.
#[derive(Clone, Copy, Debug, PartialEq, Eq, Structural)]
pub enum TransitionEvent {
    /// A work phase ended; the rest phase of the same session begins.
    WorkEnded,
    /// A rest phase ended and the next session begins.
    SessionEnded,
    /// The rest phase of the last session ended: the run is complete.
    Completed,
}

/// The two audio cues played at phase boundaries.
#[derive(Clone, Copy, Debug, PartialEq, Eq, Structural)]
pub enum Alert {
    WorkEnded,
    RestEnded,
}

/// The clock read earlier than the reference point of the phase.
#[derive(Clone, Copy, Debug, PartialEq, Eq, Structural)]
pub enum ClockError {
    WentBackwards,
}

/// The state of one run. Timestamps are wall-clock milliseconds.
#[derive(Clone, Copy, Debug, PartialEq, Eq, Structural)]
pub struct TimerState {
    pub phase: Phase,
    /// The session under way, counted from 1.
    pub current_session: u16,
    /// Whole minutes counted in the current phase.
    pub elapsed_minutes: u16,
    /// When the minute now being counted began.
    pub phase_started_at: u64,
    pub is_paused: bool,
    pub status: RunStatus,
}

/// The cue for the end of a phase.
pub open spec fn alert_of(ev: TransitionEvent) -> Alert {
    match ev {
        TransitionEvent::WorkEnded => Alert::WorkEnded,
        _ => Alert::RestEnded,
    }
}

/// The cue to play for `ev`: the work cue after a work phase, the rest cue
/// after a rest phase.
pub fn alert_for(ev: TransitionEvent) -> (r: Alert)
    ensures
        r == alert_of(ev),
{
    match ev {
        TransitionEvent::WorkEnded => Alert::WorkEnded,
        _ => Alert::RestEnded,
    }
}

impl TimerState {
    /// The state agrees with `cfg`: while the run goes on the session is one
    /// of the configured ones and the phase has not reached its length; a
    /// completed run stands one session past the last.
    pub open spec fn inv(&self, cfg: SessionConfig) -> bool {
        &&& cfg.wf()
        &&& self.current_session >= 1
        &&& match self.status {
            RunStatus::Completed => {
                &&& self.current_session == cfg.total_sessions + 1
                &&& self.elapsed_minutes == 0
            },
            _ => {
                &&& self.current_session <= cfg.total_sessions
                &&& self.elapsed_minutes < cfg.duration_of(self.phase)
            },
        }
    }

    /// What a frame needs of the state: a valid configuration and, while
    /// the run is not complete, no more minutes counted than the phase has.
    /// Every state that agrees with `cfg` has it, and so has the state of a
    /// phase that has just been counted to its full length.
    pub open spec fn shown_within(&self, cfg: SessionConfig) -> bool {
        &&& cfg.wf()
        &&& self.status != RunStatus::Completed ==> self.elapsed_minutes <= cfg.duration_of(
            self.phase,
        )
    }

    /// The state as it stands when its phase has just been counted to its
    /// full length, before the next phase begins.
    pub open spec fn phase_full(self, cfg: SessionConfig) -> TimerState {
        TimerState { elapsed_minutes: cfg.duration_of(self.phase) as u16, ..self }
    }

    /// The state a run starts in at time `now`.
    pub open spec fn initial(now: u64) -> TimerState {
        TimerState {
            phase: Phase::Working,
            current_session: 1,
            elapsed_minutes: 0,
            phase_started_at: now,
            is_paused: false,
            status: RunStatus::Running,
        }
    }

    /// The run goes on and is not paused: the clock counts.
    pub open spec fn is_active(&self) -> bool {
        self.status == RunStatus::Running && !self.is_paused
    }

    /// The state once the clock reads `now`: a full minute since the
    /// reference point adds one minute and moves the reference point to `now`.
    pub open spec fn counted(self, now: u64) -> TimerState {
        if now - self.phase_started_at >= MS_PER_MINUTE {
            TimerState {
                elapsed_minutes: (self.elapsed_minutes + 1) as u16,
                phase_started_at: now,
                ..self
            }
        } else {
            self
        }
    }

    /// What the end of the current phase is.
    pub open spec fn end_event(self, cfg: SessionConfig) -> TransitionEvent {
        match self.phase {
            Phase::Working => TransitionEvent::WorkEnded,
            Phase::Resting => if self.current_session >= cfg.total_sessions {
                TransitionEvent::Completed
            } else {
                TransitionEvent::SessionEnded
            },
        }
    }

    /// The state after the current phase ends at `now`: work gives way to rest
    /// of the same session; rest gives way to work of the next session, or,
    /// after the last session, completes the run.
    pub open spec fn after_phase_end(self, cfg: SessionConfig, now: u64) -> TimerState {
        match self.phase {
            Phase::Working => TimerState {
                phase: Phase::Resting,
                elapsed_minutes: 0,
                phase_started_at: now,
                ..self
            },
            Phase::Resting => TimerState {
                phase: Phase::Working,
                current_session: (self.current_session + 1) as u16,
                elapsed_minutes: 0,
                phase_started_at: now,
                status: if self.current_session >= cfg.total_sessions {
                    RunStatus::Completed
                } else {
                    RunStatus::Running
                },
                ..self
            },
        }
    }

    /// One tick at time `now`: a paused or finished run stays as it is; a
    /// clock behind the reference point is an error; otherwise the minute is
    /// counted, and the phase ends, once, when it reaches its length.
    pub open spec fn tick(self, cfg: SessionConfig, now: u64) -> Result<
        (TimerState, Option<TransitionEvent>),
        ClockError,
    > {
        if !self.is_active() {
            Ok((self, None))
        } else if now < self.phase_started_at {
            Err(ClockError::WentBackwards)
        } else {
            let c = self.counted(now);
            if c.elapsed_minutes >= cfg.duration_of(c.phase) {
                Ok((c.after_phase_end(cfg, now), Some(c.end_event(cfg))))
            } else {
                Ok((c, None))
            }
        }
    }

    /// The state after `cmd` at time `now`: quitting interrupts a running run,
    /// in any phase, paused or not; the pause key pauses an active run and
    /// resumes a paused one, restarting the count of the current minute;
    /// a finished run ignores every command.
    pub open spec fn command_applied(self, cmd: Command, now: u64) -> TimerState {
        if self.status != RunStatus::Running {
            self
        } else {
            match cmd {
                Command::Quit => TimerState { status: RunStatus::Interrupted, ..self },
                Command::TogglePause => if self.is_paused {
                    TimerState { is_paused: false, phase_started_at: now, ..self }
                } else {
                    TimerState { is_paused: true, ..self }
                },
                Command::Idle => self,
            }
        }
    }

    /// A run that starts at time `now`: first session, working, nothing counted.
    pub fn new(cfg: &SessionConfig, now: u64) -> (r: TimerState)
        requires
            cfg.wf(),
        ensures
            r == TimerState::initial(now),
            r.inv(*cfg),
    {
        TimerState {
            phase: Phase::Working,
            current_session: 1,
            elapsed_minutes: 0,
            phase_started_at: now,
            is_paused: false,
            status: RunStatus::Running,
        }
    }

    /// The current phase counted to its full length, as it is shown when
    /// the phase ends: the finished phase's bar full, in its own session.
    pub fn at_phase_end(&self, cfg: &SessionConfig) -> (r: TimerState)
        requires
            self.inv(*cfg),
        ensures
            r == self.phase_full(*cfg),
            r.shown_within(*cfg),
    {
        TimerState { elapsed_minutes: cfg.duration(self.phase) as u16, ..*self }
    }

    /// The run is over, completed or interrupted.
    pub fn is_finished(&self) -> (r: bool)
        ensures
            r == (self.status != RunStatus::Running),
    {
        self.status != RunStatus::Running
    }

    /// Advances the state to time `now`; see `tick`.
    pub fn advance(&mut self, cfg: &SessionConfig, now: u64) -> (r: Result<
        Option<TransitionEvent>,
        ClockError,
    >)
        requires
            old(self).inv(*cfg),
        ensures
            final(self).inv(*cfg),
            match old(self).tick(*cfg, now) {
                Ok(p) => r == Result::<Option<TransitionEvent>, ClockError>::Ok(p.1) && *final(self)
                    == p.0,
                Err(e) => r == Result::<Option<TransitionEvent>, ClockError>::Err(e) && *final(self)
                    == *old(self),
            },
    {
        if self.status != RunStatus::Running || self.is_paused {
            return Ok(None);
        }
        if now < self.phase_started_at {
            return Err(ClockError::WentBackwards);
        }
        if now - self.phase_started_at >= MS_PER_MINUTE {
            self.elapsed_minutes = self.elapsed_minutes + 1;
            self.phase_started_at = now;
        }
        if self.elapsed_minutes >= cfg.duration(self.phase) as u16 {
            let ev = match self.phase {
                Phase::Working => {
                    self.phase = Phase::Resting;
                    TransitionEvent::WorkEnded
                },
                Phase::Resting => {
                    let last = self.current_session >= cfg.total_sessions as u16;
                    self.phase = Phase::Working;
                    self.current_session = self.current_session + 1;
                    if last {
                        self.status = RunStatus::Completed;
                        TransitionEvent::Completed
                    } else {
                        TransitionEvent::SessionEnded
                    }
                },
            };
            self.elapsed_minutes = 0;
            self.phase_started_at = now;
            Ok(Some(ev))
        } else {
            Ok(None)
        }
    }

    /// Applies the command of one poll at time `now`; see `command_applied`.
    pub fn apply_command(&mut self, cmd: Command, now: u64)
        ensures
            *final(self) == old(self).command_applied(cmd, now),
            forall|cfg: SessionConfig| #[trigger] old(self).inv(cfg) ==> final(self).inv(cfg),
    {
        if self.status != RunStatus::Running {
            return;
        }
        match cmd {
            Command::Quit => {
                self.status = RunStatus::Interrupted;
            },
            Command::TogglePause => {
                if self.is_paused {
                    self.is_paused = false;
                    self.phase_started_at = now;
                } else {
                    self.is_paused = true;
                }
            },
            Command::Idle => {},
        }
    }
}

} // verus!
