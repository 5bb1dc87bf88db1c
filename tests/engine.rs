use run_splitter::engine::{
    detach, flag_from_byte, is_loading, required_count, split, start, tick, update_loop, Sample, Settings,
    TimerAction, TimerState, Watchers,
};
use run_splitter::stage::StageID;

fn stage_path(key: &str) -> Option<Vec<u8>> {
    let mut v = b"data/levels/".to_vec();
    v.extend_from_slice(key.as_bytes());
    v.push(0);
    Some(v)
}

fn sample(loading: bool, story: bool, key: &str, won: bool) -> Sample {
    Sample {
        is_loading: Some(loading),
        story_mode_flag: Some(story),
        stage_path: stage_path(key),
        race_won: Some(won),
    }
}

fn failed() -> Sample {
    Sample { is_loading: None, story_mode_flag: None, stage_path: None, race_won: None }
}

#[test]
fn story_mode_entered_starts_run() {
    let settings = Settings::new();
    let mut w = Watchers::new();
    assert!(tick(&mut w, &sample(false, false, "1_1", false), &settings, TimerState::NotRunning).is_empty());
    let actions = tick(&mut w, &sample(false, true, "1_1", false), &settings, TimerState::NotRunning);
    assert_eq!(actions, vec![TimerAction::Start, TimerAction::PauseGameTime]);
}

#[test]
fn start_then_loading_report_resumes() {
    let settings = Settings::new();
    let mut w = Watchers::new();
    tick(&mut w, &sample(true, false, "1_1", false), &settings, TimerState::NotRunning);
    // Loading ends on the same tick as story mode is entered.
    let actions = tick(&mut w, &sample(false, true, "1_1", false), &settings, TimerState::NotRunning);
    assert_eq!(
        actions,
        vec![TimerAction::Start, TimerAction::PauseGameTime, TimerAction::ResumeGameTime]
    );
}

#[test]
fn no_start_while_loading_or_disabled() {
    let mut settings = Settings::new();
    let mut w = Watchers::new();
    tick(&mut w, &sample(true, false, "1_1", false), &settings, TimerState::NotRunning);
    assert!(tick(&mut w, &sample(true, true, "1_1", false), &settings, TimerState::NotRunning).is_empty());
    settings.start = false;
    let mut w = Watchers::new();
    tick(&mut w, &sample(false, false, "1_1", false), &settings, TimerState::NotRunning);
    assert!(!start(&w, &settings));
    assert!(tick(&mut w, &sample(false, true, "1_1", false), &settings, TimerState::NotRunning).is_empty());
}

#[test]
fn multi_part_stage_splits_on_second_win() {
    let settings = Settings::new();
    let mut w = Watchers::new();
    let run = TimerState::Running;
    assert!(tick(&mut w, &sample(false, true, "3_51", false), &settings, run).is_empty());
    assert!(tick(&mut w, &sample(false, true, "3_51", true), &settings, run).is_empty());
    assert_eq!(w.split_buffer, 1);
    assert!(tick(&mut w, &sample(false, true, "3_51", false), &settings, run).is_empty());
    assert_eq!(tick(&mut w, &sample(false, true, "3_51", true), &settings, run), vec![TimerAction::Split]);
    assert_eq!(w.split_buffer, 2);
}

#[test]
fn four_part_stage_needs_four_wins() {
    let settings = Settings::new();
    let mut w = Watchers::new();
    let run = TimerState::Running;
    tick(&mut w, &sample(false, true, "10_31", false), &settings, run);
    let mut splits = 0;
    for _ in 0..4 {
        splits += tick(&mut w, &sample(false, true, "10_31", true), &settings, run).len();
        assert_eq!(splits, if w.split_buffer == 4 { 1 } else { 0 });
        tick(&mut w, &sample(false, true, "10_31", false), &settings, run);
    }
    assert_eq!(w.split_buffer, 4);
    assert_eq!(splits, 1);
    assert_eq!(required_count(StageID::Chapter7_4), 4);
    assert_eq!(required_count(StageID::Chapter3_6), 2);
    assert_eq!(required_count(StageID::Chapter1_1), 1);
}

#[test]
fn disabled_multi_part_stage_still_counts() {
    let mut settings = Settings::new();
    settings.set_stage(StageID::Chapter3_6, false);
    assert!(!settings.stage_enabled(StageID::Chapter3_6));
    assert!(settings.stage_enabled(StageID::Chapter3_5));
    let mut w = Watchers::new();
    let run = TimerState::Running;
    tick(&mut w, &sample(false, true, "3_51", false), &settings, run);
    assert!(tick(&mut w, &sample(false, true, "3_51", true), &settings, run).is_empty());
    tick(&mut w, &sample(false, true, "3_51", false), &settings, run);
    assert!(tick(&mut w, &sample(false, true, "3_51", true), &settings, run).is_empty());
    assert_eq!(w.split_buffer, 2);
}

#[test]
fn stage_change_resets_buffer_and_reports_loading() {
    let settings = Settings::new();
    let mut w = Watchers::new();
    let run = TimerState::Running;
    tick(&mut w, &sample(false, true, "3_51", false), &settings, run);
    tick(&mut w, &sample(false, true, "3_51", true), &settings, run);
    assert_eq!(w.split_buffer, 1);
    let actions = tick(&mut w, &sample(false, true, "4_3A", true), &settings, run);
    assert_eq!(actions, vec![TimerAction::PauseGameTime]);
    assert_eq!(w.split_buffer, 0);
}

#[test]
fn stage_change_reports_loading_over_sampled_value() {
    let settings = Settings::new();
    let mut w = Watchers::new();
    let run = TimerState::Running;
    tick(&mut w, &sample(true, true, "1_1", false), &settings, run);
    tick(&mut w, &sample(false, true, "1_1", false), &settings, run);
    assert_eq!(is_loading(&w), Some(false));
    let actions = tick(&mut w, &sample(false, true, "1_5", false), &settings, run);
    assert_eq!(actions, vec![TimerAction::PauseGameTime]);
    assert_eq!(is_loading(&w), Some(true));
    assert!(tick(&mut w, &sample(false, true, "1_5", false), &settings, TimerState::Paused).is_empty());
    assert_eq!(
        tick(&mut w, &sample(true, true, "1_5", false), &settings, TimerState::Paused),
        vec![TimerAction::PauseGameTime]
    );
}

#[test]
fn race_won_splits_enabled_stage_once() {
    let mut settings = Settings::new();
    let mut w = Watchers::new();
    let run = TimerState::Running;
    tick(&mut w, &sample(false, true, "2_4", false), &settings, run);
    assert_eq!(tick(&mut w, &sample(false, true, "2_4", true), &settings, run), vec![TimerAction::Split]);
    assert!(tick(&mut w, &sample(false, true, "2_4", true), &settings, run).is_empty());
    assert_eq!(w.split_buffer, 0);
    settings.set_stage(StageID::Chapter2_3, false);
    tick(&mut w, &sample(false, true, "2_4", false), &settings, run);
    assert!(tick(&mut w, &sample(false, true, "2_4", true), &settings, run).is_empty());
    settings.split = false;
    settings.set_stage(StageID::Chapter2_3, true);
    tick(&mut w, &sample(false, true, "2_4", false), &settings, run);
    assert!(!split(&mut w, &settings));
    assert!(tick(&mut w, &sample(false, true, "2_4", true), &settings, run).is_empty());
}

#[test]
fn read_failure_changes_nothing() {
    let settings = Settings::new();
    let mut w = Watchers::new();
    let run = TimerState::Running;
    tick(&mut w, &sample(false, true, "3_51", false), &settings, run);
    tick(&mut w, &sample(false, true, "3_51", true), &settings, run);
    let before = format!("{:?}", w);
    assert!(tick(&mut w, &failed(), &settings, run).is_empty());
    assert_eq!(format!("{:?}", w), before);
    assert!(!update_loop(&mut w, &failed()));
    assert_eq!(format!("{:?}", w), before);
    // The next tick goes on from where the session was.
    tick(&mut w, &sample(false, true, "3_51", false), &settings, run);
    assert_eq!(tick(&mut w, &sample(false, true, "3_51", true), &settings, run), vec![TimerAction::Split]);
}

#[test]
fn stage_change_is_not_reported_again_after_failed_tick() {
    let settings = Settings::new();
    let mut w = Watchers::new();
    let run = TimerState::Running;
    tick(&mut w, &sample(false, true, "1_1", false), &settings, run);
    assert_eq!(tick(&mut w, &sample(false, true, "1_5", false), &settings, run), vec![TimerAction::PauseGameTime]);
    assert!(w.stage_id.changed());
    let loading = w.is_loading.pair.unwrap();
    assert!(!update_loop(&mut w, &failed()));
    assert!(!w.stage_id.changed());
    assert_eq!(w.stage_id.current(), Some(StageID::Chapter1_2));
    assert_eq!(is_loading(&w), None);
    let kept = w.is_loading.pair.unwrap();
    assert_eq!(kept.previous, loading.previous);
    assert_eq!(kept.current, loading.current);
    assert!(tick(&mut w, &failed(), &settings, run).is_empty());
    assert!(tick(&mut w, &sample(false, true, "1_5", false), &settings, run).is_empty());
}

#[test]
fn failed_tick_before_any_stage_keeps_watcher_empty() {
    let mut w = Watchers::new();
    assert!(!update_loop(&mut w, &failed()));
    assert!(w.stage_id.pair.is_none());
}

#[test]
fn unreadable_race_flag_keeps_watcher() {
    let settings = Settings::new();
    let mut w = Watchers::new();
    let run = TimerState::Running;
    tick(&mut w, &sample(false, true, "2_4", false), &settings, run);
    assert_eq!(tick(&mut w, &sample(false, true, "2_4", true), &settings, run), vec![TimerAction::Split]);
    let pair = w.race_won.pair.unwrap();
    let mut s = sample(false, true, "2_4", false);
    s.race_won = None;
    assert!(tick(&mut w, &s, &settings, run).is_empty());
    let kept = w.race_won.pair.unwrap();
    assert_eq!(kept.previous, pair.previous);
    assert_eq!(kept.current, pair.current);
    // The race is still won on the next good read: no second split.
    assert!(tick(&mut w, &sample(false, true, "2_4", true), &settings, run).is_empty());
    s.stage_path = None;
    assert!(tick(&mut w, &s, &settings, run).is_empty());
    assert_eq!(w.stage_id.current(), Some(StageID::Chapter2_3));
}

#[test]
fn unreadable_race_flag_does_not_count_on_multi_part_stage() {
    let settings = Settings::new();
    let mut w = Watchers::new();
    let run = TimerState::Running;
    tick(&mut w, &sample(false, true, "3_51", false), &settings, run);
    tick(&mut w, &sample(false, true, "3_51", true), &settings, run);
    assert_eq!(w.split_buffer, 1);
    let mut s = sample(false, true, "3_51", false);
    s.race_won = None;
    assert!(tick(&mut w, &s, &settings, run).is_empty());
    assert_eq!(w.split_buffer, 1);
}

#[test]
fn flag_byte_is_set_only_at_one() {
    assert!(flag_from_byte(1));
    assert!(!flag_from_byte(0));
    assert!(!flag_from_byte(2));
    assert!(!flag_from_byte(255));
}

#[test]
fn ended_timer_takes_no_action() {
    let settings = Settings::new();
    let mut w = Watchers::new();
    tick(&mut w, &sample(false, false, "2_4", false), &settings, TimerState::Ended);
    assert!(tick(&mut w, &sample(false, true, "2_5", true), &settings, TimerState::Ended).is_empty());
}

#[test]
fn detach_drops_history() {
    let settings = Settings::new();
    let mut w = Watchers::new();
    tick(&mut w, &sample(false, true, "3_51", false), &settings, TimerState::Running);
    tick(&mut w, &sample(false, true, "3_51", true), &settings, TimerState::Running);
    assert_eq!(detach(&mut w, TimerState::Running), vec![TimerAction::PauseGameTime]);
    assert!(w.stage_id.pair.is_none());
    assert_eq!(w.split_buffer, 0);
    assert!(detach(&mut w, TimerState::NotRunning).is_empty());
}
