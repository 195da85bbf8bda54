//! The text of each screen region, computed from plain values.

use vstd::prelude::*;
use crate::config::{Phase, SessionConfig};
use crate::text::{decimal, decimal_2, repeated, push_decimal, push_decimal_2, push_repeated};
use crate::timer::{RunStatus, TimerState, TransitionEvent};

verus! {

/// The widest a progress bar may be, in glyphs.
pub const MAX_SIZE: usize = 25;

/// The width of the area the screen is laid out in, in columns.
pub const TERMINAL_WIDTH: u16 = 42;

/// The glyph of one filled unit of a progress bar.
pub const PROGRESS_UNIT: &'static str = "\u{2588}";

/// The column at which text of width `size` starts so that it is centred.
pub open spec fn centred_column(size: nat) -> nat {
    (TERMINAL_WIDTH / 2 - size / 2) as nat
}

/// The number of glyphs a bar for a phase of `max_val` minutes is wide.
pub open spec fn bar_width(max_val: nat) -> nat {
    if max_val > MAX_SIZE {
        MAX_SIZE as nat
    } else {
        max_val
    }
}

/// The number of filled glyphs after `val` of `max_val` minutes: one per
/// minute, scaled down proportionally (rounding down) when the phase is
/// longer than the widest bar.
pub open spec fn filled_units(val: nat, max_val: nat) -> nat {
    if max_val > MAX_SIZE {
        val * (MAX_SIZE as nat) / max_val
    } else {
        val
    }
}

/// The progress line of a phase at `val` of `max_val` minutes: the bar in
/// brackets, then how many minutes are left out of how many, each number
/// written with at least two digits.
pub open spec fn progress_bar_text(val: nat, max_val: nat) -> Seq<char> {
    let filled = filled_units(val, max_val);
    seq!['['] + repeated(PROGRESS_UNIT@, filled) + repeated(" "@, (bar_width(max_val) - filled) as nat)
        + "]   "@ + decimal_2((max_val - val) as nat) + " of "@ + decimal_2(max_val)
        + " minutes left. "@
}

/// The column at which text of width `size` starts so that it is centred.
/// Text wider than the area plus one column has no such column.
pub fn calculate_position(size: u16) -> (r: u16)
    requires
        size / 2 <= TERMINAL_WIDTH / 2,
    ensures
        r as nat == centred_column(size as nat),
{
    (TERMINAL_WIDTH / 2) - (size / 2)
}

/// The number of filled glyphs of the bar after `val` of `max_val` minutes.
pub fn bar_fill(val: usize, max_val: usize) -> (r: usize)
    requires
        val <= max_val,
    ensures
        r as nat == filled_units(val as nat, max_val as nat),
        r as nat <= bar_width(max_val as nat),
{
    if max_val > MAX_SIZE {
        let scaled: u128 = (val as u128) * (MAX_SIZE as u128) / (max_val as u128);
        proof {
            let v = val as int;
            let m = max_val as int;
            assert(v * 25 / m <= 25) by (nonlinear_arith)
                requires
                    0 <= v <= m,
                    m > 25,
            {
                assert(v * 25 <= m * 25);
                assert(m * 25 / m == 25);
            }
        }
        scaled as usize
    } else {
        val
    }
}

/// The progress line of a phase at `val` of `max_val` minutes.
pub fn get_progress_bar_text(val: usize, max_val: usize) -> (r: String)
    requires
        val <= max_val,
    ensures
        r@ == progress_bar_text(val as nat, max_val as nat),
{
    let filled = bar_fill(val, max_val);
    let width = if max_val > MAX_SIZE {
        MAX_SIZE
    } else {
        max_val
    };
    let mut s = String::new();
    s.append("[");
    push_repeated(&mut s, PROGRESS_UNIT, filled);
    push_repeated(&mut s, " ", width - filled);
    s.append("]   ");
    push_decimal_2(&mut s, max_val - val);
    s.append(" of ");
    push_decimal_2(&mut s, max_val);
    s.append(" minutes left. ");
    proof {
        reveal_strlit("[");
    }
    assert(s@ =~= progress_bar_text(val as nat, max_val as nat));
    s
}

/// The regions of the screen, each on a row of its own.
#[derive(Clone, Copy, Debug, PartialEq, Eq, Structural)]
pub enum Region {
    Header,
    Sessions,
    WorkBar,
    RestBar,
    Message,
    Footer,
}

/// The row of each region, from the top of the screen.
pub open spec fn row_of(region: Region) -> nat {
    match region {
        Region::Header => 0,
        Region::Sessions => 2,
        Region::WorkBar => 4,
        Region::RestBar => 5,
        Region::Message => 7,
        Region::Footer => 8,
    }
}

/// The row of `region`.
pub fn row(region: Region) -> (r: u16)
    ensures
        r as nat == row_of(region),
{
    match region {
        Region::Header => 0,
        Region::Sessions => 2,
        Region::WorkBar => 4,
        Region::RestBar => 5,
        Region::Message => 7,
        Region::Footer => 8,
    }
}

/// The title of the screen.
pub const TITLE: &'static str = "Pomodoro Timer";

/// The hint shown while the clock counts.
pub const HINT_ACTIVE: &'static str = "Press p to Pause, q to Quit!!\n";

/// The hint shown while the timer is paused.
pub const HINT_PAUSED: &'static str = "Press p to Restart, q to Quit!!\n";

/// The footer shown while the timer is paused.
pub const PAUSED_TEXT: &'static str = "Timer Paused...";

/// The banner shown when a work phase ends.
pub const WORK_END_TEXT: &'static str = "Time's up! Take a break! \u{1F389}";

/// The farewell shown when every session is done.
pub const FAREWELL_TEXT: &'static str = "See You Soon!!\n";

/// The message shown when the user quits.
pub const INTERRUPTED_TEXT: &'static str = "Timer Interrupted!! See you soon!!\n";

/// `Session {current} of {total}`.
pub open spec fn sessions_text_of(current: nat, total: nat) -> Seq<char> {
    "Session "@ + decimal(current) + " of "@ + decimal(total)
}

/// `Session {session} Finished!!`.
pub open spec fn session_finished_text_of(session: nat) -> Seq<char> {
    "Session "@ + decimal(session) + " Finished!!"@
}

/// The banner for the end of a phase of session `session`.
pub open spec fn banner_of(ev: TransitionEvent, session: nat) -> Seq<char> {
    match ev {
        TransitionEvent::WorkEnded => WORK_END_TEXT@,
        _ => session_finished_text_of(session),
    }
}

/// One frame of the screen, region by region.
#[derive(Clone, Debug)]
pub struct Frame {
    pub sessions: String,
    pub work_bar: String,
    pub rest_bar: String,
    pub message: String,
    pub footer: String,
}

/// The session shown: the current one, or the last one once all are done.
pub open spec fn shown_session(state: TimerState, cfg: SessionConfig) -> nat {
    if state.status == RunStatus::Completed {
        cfg.total_sessions as nat
    } else {
        state.current_session as nat
    }
}

/// Minutes shown on the work bar: the count while working, full afterwards.
pub open spec fn work_shown(state: TimerState, cfg: SessionConfig) -> nat {
    if state.phase == Phase::Working && state.status != RunStatus::Completed {
        state.elapsed_minutes as nat
    } else {
        cfg.work_minutes as nat
    }
}

/// Minutes shown on the rest bar: none while working, the count while
/// resting, full once all sessions are done.
pub open spec fn rest_shown(state: TimerState, cfg: SessionConfig) -> nat {
    if state.status == RunStatus::Completed {
        cfg.rest_minutes as nat
    } else if state.phase == Phase::Working {
        0
    } else {
        state.elapsed_minutes as nat
    }
}

/// The message line: the key hint while running, the farewell on quitting.
pub open spec fn message_of(state: TimerState) -> Seq<char> {
    match state.status {
        RunStatus::Running => if state.is_paused {
            HINT_PAUSED@
        } else {
            HINT_ACTIVE@
        },
        RunStatus::Interrupted => INTERRUPTED_TEXT@,
        RunStatus::Completed => Seq::empty(),
    }
}

/// The footer line: the pause notice while paused, the farewell once done.
pub open spec fn footer_of(state: TimerState) -> Seq<char> {
    match state.status {
        RunStatus::Running => if state.is_paused {
            PAUSED_TEXT@
        } else {
            Seq::empty()
        },
        RunStatus::Completed => FAREWELL_TEXT@,
        RunStatus::Interrupted => Seq::empty(),
    }
}

/// `Session {current} of {total}`.
pub fn sessions_text(current: u16, total: u16) -> (r: String)
    ensures
        r@ == sessions_text_of(current as nat, total as nat),
{
    let mut s = String::from_str("Session ");
    push_decimal(&mut s, current as usize);
    s.append(" of ");
    push_decimal(&mut s, total as usize);
    s
}

/// The banner for the end of a phase of session `session`.
pub fn banner_text(ev: TransitionEvent, session: u16) -> (r: String)
    ensures
        r@ == banner_of(ev, session as nat),
{
    match ev {
        TransitionEvent::WorkEnded => String::from_str(WORK_END_TEXT),
        _ => {
            let mut s = String::from_str("Session ");
            push_decimal(&mut s, session as usize);
            s.append(" Finished!!");
            s
        },
    }
}

/// The frame that shows `state` under `cfg`.
pub fn render(state: &TimerState, cfg: &SessionConfig) -> (r: Frame)
    requires
        state.shown_within(*cfg),
    ensures
        r.sessions@ == sessions_text_of(shown_session(*state, *cfg), cfg.total_sessions as nat),
        r.work_bar@ == progress_bar_text(work_shown(*state, *cfg), cfg.work_minutes as nat),
        r.rest_bar@ == progress_bar_text(rest_shown(*state, *cfg), cfg.rest_minutes as nat),
        r.message@ == message_of(*state),
        r.footer@ == footer_of(*state),
{
    let completed = state.status == RunStatus::Completed;
    let session = if completed {
        cfg.total_sessions as u16
    } else {
        state.current_session
    };
    let work_val: usize = if state.phase == Phase::Working && !completed {
        state.elapsed_minutes as usize
    } else {
        cfg.work_minutes as usize
    };
    let rest_val: usize = if completed {
        cfg.rest_minutes as usize
    } else if state.phase == Phase::Working {
        0
    } else {
        state.elapsed_minutes as usize
    };
    let message = match state.status {
        RunStatus::Running => if state.is_paused {
            String::from_str(HINT_PAUSED)
        } else {
            String::from_str(HINT_ACTIVE)
        },
        RunStatus::Interrupted => String::from_str(INTERRUPTED_TEXT),
        RunStatus::Completed => String::new(),
    };
    let footer = match state.status {
        RunStatus::Running => if state.is_paused {
            String::from_str(PAUSED_TEXT)
        } else {
            String::new()
        },
        RunStatus::Completed => String::from_str(FAREWELL_TEXT),
        RunStatus::Interrupted => String::new(),
    };
    Frame {
        sessions: sessions_text(session, cfg.total_sessions as u16),
        work_bar: get_progress_bar_text(work_val, cfg.work_minutes as usize),
        rest_bar: get_progress_bar_text(rest_val, cfg.rest_minutes as usize),
        message,
        footer,
    }
}

} // verus!
