//! Properties of the timer that hold across calls, proved over the state
//! machine's own spec functions.

use vstd::prelude::*;
use crate::config::{Phase, SessionConfig};
use crate::input::{command_of, Command, InputEvent, KeyInput};
use crate::timer::{alert_of, Alert, ClockError, RunStatus, TimerState, TransitionEvent, MS_PER_MINUTE};

verus! {

/// The state after `n` phases in a row have ended, each at time `now`.
pub open spec fn phase_ends(s: TimerState, cfg: SessionConfig, now: u64, n: nat) -> TimerState
    decreases n,
{
    if n == 0 {
        s
    } else {
        phase_ends(s, cfg, now, (n - 1) as nat).after_phase_end(cfg, now)
    }
}

/// Where a run stands after `k` phase ends, for `k` below twice the number
/// of sessions: session `k / 2 + 1`, working after an even number of ends,
/// resting after an odd one, still running.
pub open spec fn expected_after(k: nat, now: u64) -> TimerState {
    TimerState {
        phase: if k % 2 == 0 {
            Phase::Working
        } else {
            Phase::Resting
        },
        current_session: (k / 2 + 1) as u16,
        elapsed_minutes: 0,
        phase_started_at: now,
        is_paused: false,
        status: RunStatus::Running,
    }
}

/// The event of the phase end that follows `k` earlier ones: a work end
/// after an even number, a session end after an odd one, and completion
/// at the very last.
pub open spec fn expected_event(k: nat, total: nat) -> TransitionEvent {
    if k % 2 == 0 {
        TransitionEvent::WorkEnded
    } else if k + 1 == 2 * total {
        TransitionEvent::Completed
    } else {
        TransitionEvent::SessionEnded
    }
}

proof fn lemma_phase_ends_step(cfg: SessionConfig, start: u64, now: u64, k: nat)
    requires
        cfg.wf(),
        1 <= k < 2 * cfg.total_sessions,
    ensures
        phase_ends(TimerState::initial(start), cfg, now, k) == expected_after(k, now),
    decreases k,
{
    let s = TimerState::initial(start);
    let prev = phase_ends(s, cfg, now, (k - 1) as nat);
    if k > 1 {
        lemma_phase_ends_step(cfg, start, now, (k - 1) as nat);
    }
    assert(prev.status == RunStatus::Running);
    assert(prev.phase == Phase::Working <==> (k - 1) as nat % 2 == 0);
    assert(prev.current_session == ((k - 1) as nat / 2 + 1) as u16);
    assert(!prev.is_paused);
    assert(phase_ends(s, cfg, now, k) == expected_after(k, now));
}

/// A run of any valid configuration, whose phases end one after another,
/// stays running through the first `2 * total_sessions - 1` phase ends and
/// completes at the next one: work and rest alternate, each session ends
/// with its rest phase, the session counter rises by one at each rest end
/// but the last, and the last rest end completes the run. The cues therefore
/// alternate, work cue first, rest cue last.
pub proof fn lemma_run_completes_after_all_sessions(cfg: SessionConfig, start: u64, now: u64)
    requires
        cfg.wf(),
    ensures
        forall|k: nat|
            1 <= k < 2 * cfg.total_sessions ==> #[trigger] phase_ends(
                TimerState::initial(start),
                cfg,
                now,
                k,
            ) == expected_after(k, now),
        forall|k: nat|
            k < 2 * cfg.total_sessions ==> (#[trigger] phase_ends(
                TimerState::initial(start),
                cfg,
                now,
                k,
            )).status == RunStatus::Running && phase_ends(TimerState::initial(start), cfg, now, k).end_event(cfg)
                == expected_event(k, cfg.total_sessions as nat),
        forall|k: nat|
            k < 2 * cfg.total_sessions ==> alert_of(#[trigger] expected_event(k, cfg.total_sessions as nat))
                == if k % 2 == 0 {
                Alert::WorkEnded
            } else {
                Alert::RestEnded
            },
        phase_ends(TimerState::initial(start), cfg, now, 2 * cfg.total_sessions as nat).status
            == RunStatus::Completed,
        phase_ends(TimerState::initial(start), cfg, now, 2 * cfg.total_sessions as nat).current_session
            == cfg.total_sessions + 1,
{
    let s = TimerState::initial(start);
    let total = cfg.total_sessions as nat;
    assert forall|k: nat| 1 <= k < 2 * total implies #[trigger] phase_ends(s, cfg, now, k)
        == expected_after(k, now) by {
        lemma_phase_ends_step(cfg, start, now, k);
    }
    assert forall|k: nat| k < 2 * total implies (#[trigger] phase_ends(s, cfg, now, k)).status
        == RunStatus::Running && phase_ends(s, cfg, now, k).end_event(cfg) == expected_event(
        k,
        total,
    ) by {
        if k >= 1 {
            lemma_phase_ends_step(cfg, start, now, k);
        }
    }
    let last = (2 * total - 1) as nat;
    if last >= 1 {
        lemma_phase_ends_step(cfg, start, now, last);
    }
    assert(phase_ends(s, cfg, now, last).current_session == total);
    assert(phase_ends(s, cfg, now, 2 * total) == phase_ends(s, cfg, now, last).after_phase_end(
        cfg,
        now,
    ));
}

/// Within a phase the count of elapsed minutes never falls and grows by at
/// most one per tick; when a tick ends the phase the count starts again at
/// exactly 0 and the reference point moves to the time of that tick. A
/// command changes neither the count, nor the phase, nor the session; on
/// resuming, what restarts is the count of the minute under way (the
/// reference point moves to the time of resuming), not the count of whole
/// minutes.
pub proof fn lemma_elapsed_monotone_within_phase(
    s: TimerState,
    cfg: SessionConfig,
    now: u64,
    cmd: Command,
)
    requires
        s.inv(cfg),
    ensures
        s.tick(cfg, now) matches Ok((t, None)) ==> {
            &&& t.phase == s.phase
            &&& t.current_session == s.current_session
            &&& s.elapsed_minutes <= t.elapsed_minutes <= s.elapsed_minutes + 1
        },
        s.tick(cfg, now) matches Ok((t, Some(ev))) ==> {
            &&& t.elapsed_minutes == 0
            &&& t.phase_started_at == now
            &&& t.phase != s.phase
        },
        s.command_applied(cmd, now).elapsed_minutes == s.elapsed_minutes,
        s.command_applied(cmd, now).phase == s.phase,
        s.command_applied(cmd, now).current_session == s.current_session,
        (s.status == RunStatus::Running && s.is_paused && cmd == Command::TogglePause) ==> s.command_applied(
            cmd,
            now,
        ).phase_started_at == now,
{
}

/// Time spent paused is never counted. While paused, a tick at any time
/// changes nothing; resuming gives back the state from before the pause with
/// only the reference point moved to the time of resuming, so pausing and
/// resuming at once changes neither the phase, the session, nor the count.
/// After resuming, no minute is counted before a full minute has passed
/// since the resume: what is lost is the part of a minute under way at the
/// pause, less than one minute.
pub proof fn lemma_pause_is_not_counted(
    s: TimerState,
    cfg: SessionConfig,
    paused_at: u64,
    resumed_at: u64,
    tick_at: u64,
)
    requires
        s.inv(cfg),
        s.is_active(),
    ensures
        s.command_applied(Command::TogglePause, paused_at).is_paused,
        s.command_applied(Command::TogglePause, paused_at).tick(cfg, tick_at) == Ok::<
            (TimerState, Option<TransitionEvent>),
            ClockError,
        >((s.command_applied(Command::TogglePause, paused_at), None)),
        s.command_applied(Command::TogglePause, paused_at).command_applied(
            Command::TogglePause,
            resumed_at,
        ) == (TimerState { phase_started_at: resumed_at, ..s }),
        (resumed_at <= tick_at && tick_at - resumed_at < MS_PER_MINUTE) ==> (TimerState {
            phase_started_at: resumed_at,
            ..s
        }).tick(cfg, tick_at) == Ok::<(TimerState, Option<TransitionEvent>), ClockError>(
            ((TimerState { phase_started_at: resumed_at, ..s }), None),
        ),
{
}

/// Quitting takes effect at the poll that sees it: a plain press of `q`
/// gives the quit command, which interrupts a running run in any phase,
/// paused or not, whatever has been counted; after that no tick changes the
/// state or ends a phase.
pub proof fn lemma_quit_interrupts(s: TimerState, cfg: SessionConfig, now: u64, later: u64)
    requires
        s.inv(cfg),
        s.status == RunStatus::Running,
    ensures
        command_of(Some(InputEvent::Key(KeyInput { ch: Some('q'), plain: true, press: true })))
            == Command::Quit,
        s.command_applied(Command::Quit, now).status == RunStatus::Interrupted,
        s.command_applied(Command::Quit, now).tick(cfg, later) == Ok::<
            (TimerState, Option<TransitionEvent>),
            ClockError,
        >((s.command_applied(Command::Quit, now), None)),
{
}

/// The state `s` with its reference point `d` milliseconds later.
pub open spec fn shifted(s: TimerState, d: u64) -> TimerState {
    TimerState { phase_started_at: (s.phase_started_at + d) as u64, ..s }
}

/// The timer only looks at time differences: moving the reference point and
/// the clock reading by the same amount gives the same outcome, with the
/// result moved by that amount too.
pub proof fn lemma_tick_shift(s: TimerState, cfg: SessionConfig, now: u64, d: u64)
    requires
        s.phase_started_at + d <= u64::MAX,
        now + d <= u64::MAX,
    ensures
        s.tick(cfg, now) matches Ok((t, ev)) ==> shifted(s, d).tick(cfg, (now + d) as u64) == Ok::<
            (TimerState, Option<TransitionEvent>),
            ClockError,
        >((shifted(t, d), ev)),
        s.tick(cfg, now) is Err ==> shifted(s, d).tick(cfg, (now + d) as u64) == s.tick(cfg, now),
{
    if s.is_active() && now >= s.phase_started_at {
        let c = s.counted(now);
        assert(shifted(s, d).counted((now + d) as u64) == shifted(c, d));
        assert(shifted(c, d).after_phase_end(cfg, (now + d) as u64) == shifted(
            c.after_phase_end(cfg, now),
            d,
        ));
    }
}

/// A pause of `d` milliseconds costs less than one minute of counting. Pausing
/// at `paused_at`, before the minute under way is full, and resuming `d` later
/// gives the state of a run that never paused but whose reference point was
/// moved forward to `paused_at` (by less than a minute), shifted by `d`: every
/// later tick of the paused run at time `t + d` has the outcome that a tick of
/// that unpaused run has at time `t`.
pub proof fn lemma_pause_costs_under_a_minute(
    s: TimerState,
    cfg: SessionConfig,
    paused_at: u64,
    d: u64,
    t: u64,
)
    requires
        s.inv(cfg),
        s.is_active(),
        s.phase_started_at <= paused_at,
        paused_at - s.phase_started_at < MS_PER_MINUTE,
        paused_at + d <= u64::MAX,
        t + d <= u64::MAX,
    ensures
        ({
            let unpaused = TimerState { phase_started_at: paused_at, ..s };
            let resumed = s.command_applied(Command::TogglePause, paused_at).command_applied(
                Command::TogglePause,
                (paused_at + d) as u64,
            );
            &&& resumed == shifted(unpaused, d)
            &&& unpaused.phase_started_at - s.phase_started_at < MS_PER_MINUTE
            &&& unpaused.tick(cfg, t) matches Ok((u, ev)) ==> resumed.tick(cfg, (t + d) as u64)
                == Ok::<(TimerState, Option<TransitionEvent>), ClockError>((shifted(u, d), ev))
        }),
{
    let unpaused = TimerState { phase_started_at: paused_at, ..s };
    lemma_tick_shift(unpaused, cfg, t, d);
}

/// The state after a tick at `now` that comes a full minute or more after
/// the reference point: one more minute counted, and the phase ended if that
/// minute completes it.
pub open spec fn minute_step(s: TimerState, cfg: SessionConfig, now: u64) -> TimerState {
    let c = TimerState {
        elapsed_minutes: (s.elapsed_minutes + 1) as u16,
        phase_started_at: now,
        ..s
    };
    if c.elapsed_minutes >= cfg.duration_of(c.phase) {
        c.after_phase_end(cfg, now)
    } else {
        c
    }
}

/// The state after `n` ticks in a row that each count a minute, at `now`.
pub open spec fn minute_steps(s: TimerState, cfg: SessionConfig, now: u64, n: nat) -> TimerState
    decreases n,
{
    if n == 0 {
        s
    } else {
        minute_step(minute_steps(s, cfg, now, (n - 1) as nat), cfg, now)
    }
}

/// The minutes of one session: work then rest.
pub open spec fn session_minutes(cfg: SessionConfig) -> nat {
    (cfg.work_minutes + cfg.rest_minutes) as nat
}

/// `s` stands at the start of session `k`: working, nothing counted, running.
pub open spec fn at_session_start(s: TimerState, k: nat) -> bool {
    &&& s.phase == Phase::Working
    &&& s.current_session == k
    &&& s.elapsed_minutes == 0
    &&& s.status == RunStatus::Running
    &&& !s.is_paused
}

/// An active tick a full minute after the reference point is a minute step.
pub proof fn lemma_full_minute_tick(s: TimerState, cfg: SessionConfig, now: u64)
    requires
        s.inv(cfg),
        s.is_active(),
        s.phase_started_at <= now,
        now - s.phase_started_at >= MS_PER_MINUTE,
    ensures
        s.tick(cfg, now) matches Ok((t, _)) && t == minute_step(s, cfg, now),
{
}

proof fn lemma_minute_steps_add(s: TimerState, cfg: SessionConfig, now: u64, a: nat, b: nat)
    ensures
        minute_steps(s, cfg, now, a + b) == minute_steps(minute_steps(s, cfg, now, a), cfg, now, b),
    decreases b,
{
    if b > 0 {
        lemma_minute_steps_add(s, cfg, now, a, (b - 1) as nat);
        assert(minute_steps(s, cfg, now, a + b) == minute_step(
            minute_steps(s, cfg, now, (a + b - 1) as nat),
            cfg,
            now,
        ));
    }
}

proof fn lemma_one_session(s: TimerState, cfg: SessionConfig, now: u64, k: nat, j: nat)
    requires
        cfg.wf(),
        1 <= k <= cfg.total_sessions,
        at_session_start(s, k),
        j <= session_minutes(cfg),
    ensures
        ({
            let t = minute_steps(s, cfg, now, j);
            &&& j < cfg.work_minutes ==> t.phase == Phase::Working && t.current_session == k
                && t.elapsed_minutes == j && t.status == RunStatus::Running && !t.is_paused
            &&& cfg.work_minutes <= j < session_minutes(cfg) ==> t.phase == Phase::Resting
                && t.current_session == k && t.elapsed_minutes == j - cfg.work_minutes && t.status
                == RunStatus::Running && !t.is_paused
            &&& j == session_minutes(cfg) && k < cfg.total_sessions ==> at_session_start(t, k + 1)
            &&& j == session_minutes(cfg) && k == cfg.total_sessions ==> t.status
                == RunStatus::Completed && t.current_session == k + 1 && t.elapsed_minutes == 0
        }),
    decreases j,
{
    if j > 0 {
        lemma_one_session(s, cfg, now, k, (j - 1) as nat);
    }
}

proof fn lemma_sessions(s: TimerState, cfg: SessionConfig, now: u64, k: nat)
    requires
        cfg.wf(),
        at_session_start(s, 1),
        k <= cfg.total_sessions,
    ensures
        k < cfg.total_sessions ==> at_session_start(
            minute_steps(s, cfg, now, session_minutes(cfg) * k),
            k + 1,
        ),
        k == cfg.total_sessions ==> minute_steps(s, cfg, now, session_minutes(cfg) * k).status
            == RunStatus::Completed,
    decreases k,
{
    let p = session_minutes(cfg);
    if k > 0 {
        let km = (k - 1) as nat;
        lemma_sessions(s, cfg, now, km);
        assert(p * k == p * km + p) by (nonlinear_arith)
            requires
                km + 1 == k,
        ;
        lemma_minute_steps_add(s, cfg, now, p * km, p);
        lemma_one_session(minute_steps(s, cfg, now, p * km), cfg, now, km + 1, p);
    } else {
        assert(p * k == 0) by (nonlinear_arith)
            requires
                k == 0,
        ;
    }
}

/// A run of any valid configuration ends after exactly
/// `(work_minutes + rest_minutes) * total_sessions` counted minutes: at each
/// earlier count it is still running, and at that count it is complete.
/// With every tick a full minute after the last, the run thus completes at
/// exactly that tick and not before.
pub proof fn lemma_run_length(cfg: SessionConfig, start: u64, now: u64)
    requires
        cfg.wf(),
    ensures
        forall|n: nat|
            n < session_minutes(cfg) * (cfg.total_sessions as nat) ==> (#[trigger] minute_steps(
                TimerState::initial(start),
                cfg,
                now,
                n,
            )).status == RunStatus::Running,
        minute_steps(
            TimerState::initial(start),
            cfg,
            now,
            session_minutes(cfg) * (cfg.total_sessions as nat),
        ).status == RunStatus::Completed,
{
    let s = TimerState::initial(start);
    let p = session_minutes(cfg);
    let total = cfg.total_sessions as nat;
    lemma_sessions(s, cfg, now, total);
    assert forall|n: nat| n < p * total implies (#[trigger] minute_steps(s, cfg, now, n)).status
        == RunStatus::Running by {
        let k = n / p;
        let j = n % p;
        vstd::arithmetic::div_mod::lemma_fundamental_div_mod(n as int, p as int);
        assert(0 <= j < p);
        assert(k < total) by (nonlinear_arith)
            requires
                n == p * k + j,
                n < p * total,
                0 <= j,
                p > 0,
        ;
        lemma_sessions(s, cfg, now, k);
        lemma_minute_steps_add(s, cfg, now, p * k, j);
        lemma_one_session(minute_steps(s, cfg, now, p * k), cfg, now, k + 1, j);
    }
}

/// The state after ticks at each of `times` in turn, while no phase ends:
/// each tick only counts a minute if one is full (see `tick`).
pub open spec fn counted_run(s: TimerState, times: Seq<u64>) -> TimerState
    decreases times.len(),
{
    if times.len() == 0 {
        s
    } else {
        counted_run(s, times.drop_last()).counted(times.last())
    }
}

/// Each of `times` moved `d` milliseconds later.
pub open spec fn shifted_times(times: Seq<u64>, d: u64) -> Seq<u64> {
    Seq::new(times.len(), |i: int| (times[i] + d) as u64)
}

/// `times` never go back.
pub open spec fn ascending(times: Seq<u64>) -> bool {
    forall|i: int, j: int| 0 <= i <= j < times.len() ==> times[i] <= times[j]
}

/// Two runs that differ only in what they have counted and in their
/// reference points: either they have counted the same and `b`'s reference
/// point is no earlier than `a`'s, or `a` is one minute ahead and its
/// reference point less than a minute after `b`'s.
pub open spec fn within_a_minute(a: TimerState, b: TimerState) -> bool {
    &&& a.phase == b.phase
    &&& a.current_session == b.current_session
    &&& a.is_paused == b.is_paused
    &&& a.status == b.status
    &&& {
        ||| a.elapsed_minutes == b.elapsed_minutes && a.phase_started_at <= b.phase_started_at
        ||| a.elapsed_minutes == b.elapsed_minutes + 1 && b.phase_started_at <= a.phase_started_at
            && a.phase_started_at - b.phase_started_at < MS_PER_MINUTE
    }
}

proof fn lemma_counted_run_shift(u: TimerState, times: Seq<u64>, d: u64)
    requires
        u.phase_started_at + d <= u64::MAX,
        forall|i: int| 0 <= i < times.len() ==> times[i] + d <= u64::MAX,
    ensures
        counted_run(shifted(u, d), shifted_times(times, d)) == shifted(counted_run(u, times), d),
    decreases times.len(),
{
    if times.len() > 0 {
        let prefix = times.drop_last();
        lemma_counted_run_shift(u, prefix, d);
        assert(shifted_times(times, d).drop_last() =~= shifted_times(prefix, d));
        lemma_counted_run_refs(u, prefix, d);
    }
}

proof fn lemma_counted_run_refs(u: TimerState, times: Seq<u64>, d: u64)
    requires
        u.phase_started_at + d <= u64::MAX,
        forall|i: int| 0 <= i < times.len() ==> times[i] + d <= u64::MAX,
    ensures
        counted_run(u, times).phase_started_at + d <= u64::MAX,
    decreases times.len(),
{
    if times.len() > 0 {
        lemma_counted_run_refs(u, times.drop_last(), d);
    }
}

proof fn lemma_counted_runs_stay_close(a: TimerState, b: TimerState, times: Seq<u64>)
    requires
        within_a_minute(a, b),
        a.phase_started_at <= b.phase_started_at,
        ascending(times),
        forall|i: int| 0 <= i < times.len() ==> b.phase_started_at <= #[trigger] times[i],
        a.elapsed_minutes + times.len() <= u16::MAX,
    ensures
        within_a_minute(counted_run(a, times), counted_run(b, times)),
        counted_run(a, times).elapsed_minutes <= a.elapsed_minutes + times.len(),
        times.len() > 0 ==> counted_run(a, times).phase_started_at <= times.last()
            && counted_run(b, times).phase_started_at <= times.last(),
    decreases times.len(),
{
    if times.len() > 0 {
        let prefix = times.drop_last();
        assert(ascending(prefix));
        lemma_counted_runs_stay_close(a, b, prefix);
        if prefix.len() > 0 {
            assert(prefix.last() <= times.last());
        }
    }
}

/// A pause costs at most one minute of counting. Take a run `s` that the
/// clock counts, paused at `paused_at` and resumed `d` later, and the same
/// run never paused. While no phase
/// ends, tick the unpaused run at each of `times` and the paused one at each
/// of those times plus `d`: at every point the paused run has counted either
/// as much as the unpaused one or one minute less, and never more.
pub proof fn lemma_pause_error_at_most_one_minute(
    s: TimerState,
    cfg: SessionConfig,
    paused_at: u64,
    d: u64,
    times: Seq<u64>,
)
    requires
        s.inv(cfg),
        s.is_active(),
        s.phase_started_at <= paused_at,
        paused_at + d <= u64::MAX,
        ascending(times),
        forall|i: int| 0 <= i < times.len() ==> paused_at <= #[trigger] times[i],
        forall|i: int| 0 <= i < times.len() ==> times[i] + d <= u64::MAX,
        s.elapsed_minutes + times.len() <= u16::MAX,
    ensures
        ({
            let resumed = s.command_applied(Command::TogglePause, paused_at).command_applied(
                Command::TogglePause,
                (paused_at + d) as u64,
            );
            let a = counted_run(s, times).elapsed_minutes;
            let b = counted_run(resumed, shifted_times(times, d)).elapsed_minutes;
            b <= a <= b + 1
        }),
{
    let unpaused = TimerState { phase_started_at: paused_at, ..s };
    lemma_counted_run_shift(unpaused, times, d);
    lemma_counted_runs_stay_close(s, unpaused, times);
}

} // verus!
