use oi_git::code::{LoCBlock, LocType};
use oi_git::level::{
    start_first_level, LevelTimer, Levels, NewLevel, Submitted,
};
use oi_git::state::GameState;
use oi_git::terminal::TerminalCommand;
use oi_git::tools::{SType, SensorEvent};

const TWO_LEVELS: &str = "== a\n== b\n== c\n== d\n== e\nNEXT_LEVEL\n== x\n";

fn neutral_blocks(codes: &[&str]) -> Vec<LoCBlock> {
    codes
        .iter()
        .map(|c| LoCBlock { line_of_code: String::from(*c), loc_type: LocType::Neutral })
        .collect()
}

fn timer_for_level(n: usize, elapsed_ms: u64) -> LevelTimer {
    let mut timer = LevelTimer::default();
    timer.new_level(&vec![NewLevel { number: n }]);
    timer.set_active(true);
    timer.tick(elapsed_ms);
    timer
}

#[test]
fn load_splits_and_parses_levels() {
    let levels = Levels::load(TWO_LEVELS).unwrap();
    assert_eq!(levels.current, 0);
    assert_eq!(levels.levels.len(), 2);
    assert_eq!(levels.code_text.len(), 2);
    assert_eq!(levels.levels[0].code.len(), 5);
    assert_eq!(levels.levels[1].code.len(), 1);
    assert_eq!(levels.code_text[1], "== x\n");
}

#[test]
fn load_rejects_malformed_level_text() {
    assert!(Levels::load("== fine\nNEXT_LEVEL\nbroken line\n").is_none());
}

#[test]
fn timer_formats_minutes_and_seconds() {
    let timer = timer_for_level(0, 90000);
    assert_eq!(timer.time_left(), 90000);
    assert_eq!(timer.remaining(), "01:30");
    assert_eq!(timer.update_ui(), "ASSEMBLE DIFFS: 01:30");
}

#[test]
fn timer_pads_seconds_under_a_minute() {
    let timer = timer_for_level(1, 60500);
    assert_eq!(timer.remaining(), "00:59");
}

#[test]
fn timer_last_second_reads_out_of_time() {
    let timer = timer_for_level(0, 179500);
    assert_eq!(timer.remaining(), "OUT OF TIME");
}

#[test]
fn inactive_timer_does_not_tick() {
    let mut timer = LevelTimer::default();
    timer.new_level(&vec![NewLevel { number: 0 }]);
    timer.tick(5000);
    assert_eq!(timer.time_left(), 180000);
}

#[test]
fn tick_saturates_at_the_duration() {
    let timer = timer_for_level(1, 999999);
    assert_eq!(timer.time_left(), 0);
}

#[test]
fn finished_active_timer_ends_the_game() {
    let mut timer = timer_for_level(0, 180000);
    assert_eq!(timer.trigger_game_over_on_finish(), Some(GameState::GameOver));
    assert!(!timer.is_active());
    // a second call does nothing: the timer is no longer active
    assert_eq!(timer.trigger_game_over_on_finish(), None);
}

#[test]
fn running_timer_does_not_end_the_game() {
    let mut timer = timer_for_level(0, 1000);
    assert_eq!(timer.trigger_game_over_on_finish(), None);
    assert!(timer.is_active());
}

#[test]
fn first_level_request_is_level_zero() {
    let mut timer = LevelTimer::default();
    let ev = start_first_level(&mut timer);
    assert_eq!(ev.number, 0);
    assert!(timer.is_active());
    assert!(NewLevel::has_triggered(&vec![ev]));
    assert!(!NewLevel::has_triggered(&Vec::new()));
}

#[test]
fn scanner_events_replace_the_snapshot() {
    let mut subs = Submitted::default();
    let evs = vec![
        SensorEvent { stype: SType::Painter, loc: None },
        SensorEvent { stype: SType::Scanner, loc: Some(neutral_blocks(&["a"])) },
        SensorEvent { stype: SType::Scanner, loc: Some(neutral_blocks(&["b", "c"])) },
    ];
    Submitted::detect_submissions(&mut subs, &evs);
    let last = subs.last.unwrap();
    assert_eq!(last.len(), 2);
    assert_eq!(last[0].line_of_code, "b");
}

#[test]
fn empty_scanner_event_stops_the_reading() {
    let mut subs = Submitted::default();
    let evs = vec![
        SensorEvent { stype: SType::Scanner, loc: Some(neutral_blocks(&["a"])) },
        SensorEvent { stype: SType::Scanner, loc: None },
        SensorEvent { stype: SType::Scanner, loc: Some(neutral_blocks(&["b"])) },
    ];
    Submitted::detect_submissions(&mut subs, &evs);
    let last = subs.last.unwrap();
    assert_eq!(last.len(), 1);
    assert_eq!(last[0].line_of_code, "a");
}

#[test]
fn restart_command_restarts_the_current_level() {
    let levels = Levels::load(TWO_LEVELS).unwrap();
    let r = TerminalCommand::reset(&vec![TerminalCommand::Restart], &levels).unwrap();
    assert_eq!(r.number, 0);
    assert!(TerminalCommand::reset(&vec![TerminalCommand::Help], &levels).is_none());
    assert!(TerminalCommand::reset(&Vec::new(), &levels).is_none());
}

#[test]
fn submit_without_snapshot_forfeits_to_game_over() {
    let mut levels = Levels::load(TWO_LEVELS).unwrap();
    let mut subs = Submitted::default();
    let timer = timer_for_level(0, 1000);
    let e = TerminalCommand::submit(&vec![TerminalCommand::Send], &mut levels, &mut subs, &timer);
    assert_eq!(e.set_state, Some(GameState::GameOver));
    assert!(e.new_level.is_none());
    assert!(e.scanner_sound.is_none());
    assert!(e.feedback.is_none());
    assert!(!e.despawn_level_entities);
    assert_eq!(levels.current, 0);
}

#[test]
fn submit_without_send_command_does_nothing() {
    let mut levels = Levels::load(TWO_LEVELS).unwrap();
    let mut subs = Submitted { last: Some(neutral_blocks(&["a"])) };
    let timer = timer_for_level(0, 1000);
    let e = TerminalCommand::submit(&vec![TerminalCommand::Help], &mut levels, &mut subs, &timer);
    assert!(e.set_state.is_none());
    assert!(e.feedback.is_none());
    assert!(subs.last.is_some());
}

#[test]
fn failed_submission_restarts_the_level() {
    // level budget 180s, submitted at 90s left with 3 of 5 lines right:
    // time bonus 9000, accuracy 60.00%, total 54000 of a possible 180000
    let mut levels = Levels::load(TWO_LEVELS).unwrap();
    let mut subs = Submitted { last: Some(neutral_blocks(&["a", "b", "c", "q", "r"])) };
    let timer = timer_for_level(0, 90000);
    let e = TerminalCommand::submit(&vec![TerminalCommand::Send], &mut levels, &mut subs, &timer);
    assert!(e.set_state.is_none());
    assert_eq!(e.new_level.unwrap().number, 0);
    assert!(!e.scanner_sound.unwrap().success);
    assert!(e.despawn_level_entities);
    assert_eq!(
        e.feedback.unwrap().s,
        "\ntime: 9000\naccuracy: 60.00%\ntotal: 54000\nFAIL. Resetting playfield...\n>>",
    );
    assert_eq!(levels.current, 0);
    assert!(subs.last.is_none());
}

#[test]
fn passing_submission_advances_the_level() {
    let mut levels = Levels::load(TWO_LEVELS).unwrap();
    let mut subs = Submitted { last: Some(neutral_blocks(&["a", "b", "c", "d", "e"])) };
    let timer = timer_for_level(0, 10000);
    let e = TerminalCommand::submit(&vec![TerminalCommand::Send], &mut levels, &mut subs, &timer);
    assert!(e.set_state.is_none());
    assert_eq!(e.new_level.unwrap().number, 1);
    assert!(e.scanner_sound.unwrap().success);
    assert!(e.despawn_level_entities);
    assert_eq!(
        e.feedback.unwrap().s,
        "\ntime: 17000\naccuracy: 100.00%\ntotal: 170000\nPASS. Loading next job...\n>>",
    );
    assert_eq!(levels.current, 1);
    assert!(subs.last.is_none());
}

#[test]
fn passing_the_last_level_ends_the_game() {
    let mut levels = Levels::load(TWO_LEVELS).unwrap();
    levels.current = 1;
    let mut subs = Submitted { last: Some(neutral_blocks(&["x"])) };
    let timer = timer_for_level(1, 0);
    let e = TerminalCommand::submit(&vec![TerminalCommand::Send], &mut levels, &mut subs, &timer);
    assert_eq!(e.set_state, Some(GameState::GameOver));
    assert!(e.new_level.is_none());
    assert!(e.scanner_sound.is_none());
    assert!(e.feedback.is_some());
    assert!(!e.despawn_level_entities);
    assert_eq!(levels.current, 1);
}

#[test]
fn removed_lines_are_not_graded() {
    // the reference keeps only non-removed lines: 2 of them, both matched
    let mut levels = Levels::load("== a\n!! gone\n== b\n").unwrap();
    let mut subs = Submitted { last: Some(neutral_blocks(&["a", "b"])) };
    let timer = timer_for_level(0, 0);
    let e = TerminalCommand::submit(&vec![TerminalCommand::Send], &mut levels, &mut subs, &timer);
    assert_eq!(
        e.feedback.unwrap().s,
        "\ntime: 18000\naccuracy: 100.00%\ntotal: 180000\nPASS. Loading next job...\n>>",
    );
}
