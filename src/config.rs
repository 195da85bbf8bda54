//! The parameters of a run: how long each phase lasts and how many sessions.

use vstd::prelude::*;

verus! {

/// The two alternating intervals of a session.
#[derive(Clone, Copy, Debug, PartialEq, Eq, Structural)]
pub enum Phase {
    Working,
    Resting,
}

/// Work minutes, rest minutes and the number of sessions of one run.
#[derive(Clone, Copy, Debug, PartialEq, Eq, Structural)]
pub struct SessionConfig {
    pub work_minutes: u8,
    pub rest_minutes: u8,
    pub total_sessions: u8,
}

impl SessionConfig {
    /// All three values are positive.
    pub open spec fn wf(&self) -> bool {
        &&& self.work_minutes > 0
        &&& self.rest_minutes > 0
        &&& self.total_sessions > 0
    }

    /// The configured length of `phase`, in minutes.
    pub open spec fn duration_of(&self, phase: Phase) -> nat {
        match phase {
            Phase::Working => self.work_minutes as nat,
            Phase::Resting => self.rest_minutes as nat,
        }
    }

    /// A configuration from validated input: `None` when any value is zero.
    pub fn new(work_minutes: u8, rest_minutes: u8, total_sessions: u8) -> (r: Option<SessionConfig>)
        ensures
            r is Some <==> (work_minutes > 0 && rest_minutes > 0 && total_sessions > 0),
            r matches Some(c) ==> c.wf() && c.work_minutes == work_minutes
                && c.rest_minutes == rest_minutes && c.total_sessions == total_sessions,
    {
        if work_minutes > 0 && rest_minutes > 0 && total_sessions > 0 {
            Some(SessionConfig { work_minutes, rest_minutes, total_sessions })
        } else {
            None
        }
    }

    /// The configured length of `phase`, in minutes.
    pub fn duration(&self, phase: Phase) -> (r: u8)
        ensures
            r as nat == self.duration_of(phase),
    {
        match phase {
            Phase::Working => self.work_minutes,
            Phase::Resting => self.rest_minutes,
        }
    }
}

} // verus!
