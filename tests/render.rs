use pomodoro::config::{Phase, SessionConfig};
use pomodoro::render::{
    banner_text, bar_fill, calculate_position, get_progress_bar_text, render, row, sessions_text,
    Region, FAREWELL_TEXT, HINT_ACTIVE, HINT_PAUSED, INTERRUPTED_TEXT, PAUSED_TEXT,
    WORK_END_TEXT,
};
use pomodoro::timer::{RunStatus, TimerState, TransitionEvent};

fn bar(filled: usize, blank: usize, tail: &str) -> String {
    format!("[{}{}]   {}", "\u{2588}".repeat(filled), " ".repeat(blank), tail)
}

#[test]
fn empty_bar_shows_all_minutes_left() {
    let text = get_progress_bar_text(0, 10);
    assert_eq!(text, bar(0, 10, "10 of 10 minutes left. "));
    assert_eq!(text.matches('\u{2588}').count(), 0);
    assert!(text.contains("10 of 10 minutes left."));
}

#[test]
fn full_bar_shows_no_minutes_left() {
    let text = get_progress_bar_text(10, 10);
    assert_eq!(text, bar(10, 0, "00 of 10 minutes left. "));
    assert_eq!(text.matches('\u{2588}').count(), 10);
    assert!(text.contains("]   00 of 10 minutes left."));
}

#[test]
fn long_phase_bar_is_rescaled_to_the_cap() {
    let text = get_progress_bar_text(25, 50);
    assert_eq!(text.matches('\u{2588}').count(), 12);
    assert_eq!(text, bar(12, 13, "25 of 50 minutes left. "));
    assert_eq!(bar_fill(25, 50), 12);
}

#[test]
fn rescaled_bar_ends_full_and_empty() {
    assert_eq!(get_progress_bar_text(0, 50), bar(0, 25, "50 of 50 minutes left. "));
    assert_eq!(get_progress_bar_text(50, 50), bar(25, 0, "00 of 50 minutes left. "));
    assert_eq!(bar_fill(49, 50), 24);
    assert_eq!(bar_fill(255, 255), 25);
    assert_eq!(bar_fill(254, 255), 24);
}

#[test]
fn bar_at_the_cap_is_not_rescaled() {
    assert_eq!(get_progress_bar_text(7, 25), bar(7, 18, "18 of 25 minutes left. "));
    assert_eq!(bar_fill(3, 5), 3);
}

#[test]
fn minute_counts_are_padded_to_two_digits() {
    assert_eq!(get_progress_bar_text(45, 50), bar(22, 3, "05 of 50 minutes left. "));
    assert_eq!(get_progress_bar_text(5, 10), bar(5, 5, "05 of 10 minutes left. "));
    assert_eq!(get_progress_bar_text(0, 1), bar(0, 1, "01 of 01 minutes left. "));
}

#[test]
fn three_digit_durations_are_written_in_full() {
    assert_eq!(get_progress_bar_text(5, 120), bar(1, 24, "115 of 120 minutes left. "));
}

#[test]
fn text_is_centred_in_the_screen() {
    assert_eq!(calculate_position(14), 14);
    assert_eq!(calculate_position(0), 21);
    assert_eq!(calculate_position(15), 14);
    assert_eq!(calculate_position(42), 0);
    assert_eq!(calculate_position(43), 0);
}

#[test]
fn regions_have_fixed_rows() {
    assert_eq!(row(Region::Header), 0);
    assert_eq!(row(Region::Sessions), 2);
    assert_eq!(row(Region::WorkBar), 4);
    assert_eq!(row(Region::RestBar), 5);
    assert_eq!(row(Region::Message), 7);
    assert_eq!(row(Region::Footer), 8);
}

#[test]
fn session_and_banner_lines() {
    assert_eq!(sessions_text(1, 4), "Session 1 of 4");
    assert_eq!(sessions_text(12, 255), "Session 12 of 255");
    assert_eq!(banner_text(TransitionEvent::SessionEnded, 3), "Session 3 Finished!!");
    assert_eq!(banner_text(TransitionEvent::Completed, 10), "Session 10 Finished!!");
    assert_eq!(banner_text(TransitionEvent::WorkEnded, 1), WORK_END_TEXT);
    assert_eq!(WORK_END_TEXT, "Time's up! Take a break! \u{1F389}");
}

fn state(phase: Phase, session: u16, elapsed: u16, paused: bool, status: RunStatus) -> TimerState {
    TimerState {
        phase,
        current_session: session,
        elapsed_minutes: elapsed,
        phase_started_at: 0,
        is_paused: paused,
        status,
    }
}

#[test]
fn frame_while_working() {
    let cfg = SessionConfig::new(10, 5, 2).unwrap();
    let f = render(&state(Phase::Working, 1, 3, false, RunStatus::Running), &cfg);
    assert_eq!(f.sessions, "Session 1 of 2");
    assert_eq!(f.work_bar, bar(3, 7, "07 of 10 minutes left. "));
    assert_eq!(f.rest_bar, bar(0, 5, "05 of 05 minutes left. "));
    assert_eq!(f.message, HINT_ACTIVE);
    assert_eq!(f.footer, "");
}

#[test]
fn frame_while_resting_and_paused() {
    let cfg = SessionConfig::new(10, 5, 2).unwrap();
    let f = render(&state(Phase::Resting, 2, 4, true, RunStatus::Running), &cfg);
    assert_eq!(f.sessions, "Session 2 of 2");
    assert_eq!(f.work_bar, bar(10, 0, "00 of 10 minutes left. "));
    assert_eq!(f.rest_bar, bar(4, 1, "01 of 05 minutes left. "));
    assert_eq!(f.message, HINT_PAUSED);
    assert_eq!(f.footer, PAUSED_TEXT);
}

#[test]
fn frame_at_the_end_of_a_run() {
    let cfg = SessionConfig::new(1, 1, 2).unwrap();
    let done = render(&state(Phase::Working, 3, 0, false, RunStatus::Completed), &cfg);
    assert_eq!(done.sessions, "Session 2 of 2");
    assert_eq!(done.work_bar, bar(1, 0, "00 of 01 minutes left. "));
    assert_eq!(done.rest_bar, bar(1, 0, "00 of 01 minutes left. "));
    assert_eq!(done.message, "");
    assert_eq!(done.footer, FAREWELL_TEXT);
    let quit = render(&state(Phase::Resting, 1, 0, true, RunStatus::Interrupted), &cfg);
    assert_eq!(quit.message, INTERRUPTED_TEXT);
    assert_eq!(quit.footer, "");
}

#[test]
fn screen_texts_end_as_written() {
    assert_eq!(HINT_ACTIVE, "Press p to Pause, q to Quit!!\n");
    assert_eq!(HINT_PAUSED, "Press p to Restart, q to Quit!!\n");
    assert_eq!(FAREWELL_TEXT, "See You Soon!!\n");
    assert_eq!(INTERRUPTED_TEXT, "Timer Interrupted!! See you soon!!\n");
    assert_eq!(PAUSED_TEXT, "Timer Paused...");
}

#[test]
fn the_finished_phase_is_shown_full() {
    let cfg = SessionConfig::new(3, 2, 2).unwrap();
    let working = state(Phase::Working, 1, 2, false, RunStatus::Running);
    let f = render(&working.at_phase_end(&cfg), &cfg);
    assert_eq!(f.sessions, "Session 1 of 2");
    assert_eq!(f.work_bar, bar(3, 0, "00 of 03 minutes left. "));
    assert_eq!(f.rest_bar, bar(0, 2, "02 of 02 minutes left. "));
    let resting = state(Phase::Resting, 2, 1, false, RunStatus::Running);
    let g = render(&resting.at_phase_end(&cfg), &cfg);
    assert_eq!(g.sessions, "Session 2 of 2");
    assert_eq!(g.work_bar, bar(3, 0, "00 of 03 minutes left. "));
    assert_eq!(g.rest_bar, bar(2, 0, "00 of 02 minutes left. "));
    assert_eq!(g.message, HINT_ACTIVE);
}
