use vault_game::state::{
    GameData, LedCmd, Phase, CALIBRATION_SLEEP_MS, PULSE_MAX_US, PULSE_MIN_US, PULSE_NEUTRAL_US,
    TICK_SLEEP_MS, WON_SLEEP_MS,
};
use vault_game::tick::{
    in_tolerance, initial_data, play_tick, play_tick_with_target, setup_handler, won_tick,
};

fn data(target: u64, needle: u64, progress: usize, clockwise: bool) -> GameData {
    GameData {
        target,
        needle_position: needle,
        progress_index: progress,
        sweeping_clockwise: clockwise,
    }
}

#[test]
fn press_in_window_advances_stage() {
    let mut d = data(1500, 1480, 0, true);
    let (phase, fx) = play_tick(&mut d, true);
    assert_eq!(phase, Phase::Play);
    assert_eq!(fx.indicator, LedCmd::SetHigh);
    assert!(fx.matched);
    assert_eq!(d.progress_index, 1);
    assert!(PULSE_MIN_US <= d.target && d.target <= PULSE_MAX_US);
    assert_eq!(d.needle_position, 1530);
    assert_eq!(fx.pulse_us, Some(1530));
    assert_eq!(fx.sleep_ms, TICK_SLEEP_MS);
}

#[test]
fn upper_bound_flips_direction() {
    let mut d = data(500, PULSE_MAX_US, 0, true);
    let (phase, fx) = play_tick(&mut d, false);
    assert_eq!(phase, Phase::Play);
    assert!(!d.sweeping_clockwise);
    assert_eq!(d.needle_position, 2450);
    assert_eq!(fx.pulse_us, Some(2450));
}

#[test]
fn lower_bound_flips_direction() {
    let mut d = data(2500, PULSE_MIN_US, 0, false);
    let (phase, fx) = play_tick(&mut d, false);
    assert_eq!(phase, Phase::Play);
    assert!(d.sweeping_clockwise);
    assert_eq!(d.needle_position, 550);
    assert_eq!(fx.pulse_us, Some(550));
}

#[test]
fn all_stages_cleared_moves_to_won() {
    let before = data(1700, 1700, 3, true);
    let mut d = before;
    let (phase, fx) = play_tick(&mut d, true);
    assert_eq!(phase, Phase::Won);
    assert_eq!(d, before);
    assert_eq!(fx.led1, LedCmd::Keep);
    assert_eq!(fx.led2, LedCmd::Keep);
    assert_eq!(fx.led3, LedCmd::Keep);
    assert_eq!(fx.indicator, LedCmd::Keep);
    assert_eq!(fx.pulse_us, None);
    assert_eq!(fx.sleep_ms, 0);
    assert!(!fx.matched);
}

#[test]
fn button_low_and_target_far_forces_indicator_low() {
    let mut d = data(500, 1500, 1, true);
    let (phase, fx) = play_tick(&mut d, false);
    assert_eq!(phase, Phase::Play);
    assert_eq!(fx.indicator, LedCmd::SetLow);
    assert!(!fx.matched);
    assert_eq!(d.progress_index, 1);
    assert_eq!(d.target, 500);
}

#[test]
fn in_window_without_press_lights_indicator_only() {
    let mut d = data(1500, 1500, 0, true);
    let (_, fx) = play_tick(&mut d, false);
    assert_eq!(fx.indicator, LedCmd::SetHigh);
    assert!(!fx.matched);
    assert_eq!(d.progress_index, 0);
    assert_eq!(d.target, 1500);
}

#[test]
fn tolerance_window_edges() {
    assert!(in_tolerance(1550, 1500));
    assert!(!in_tolerance(1551, 1500));
    assert!(in_tolerance(1450, 1500));
    assert!(!in_tolerance(1449, 1500));
    assert!(in_tolerance(1500, 1500));
}

#[test]
fn match_at_exact_tolerance_edge_counts() {
    let mut d = data(1550, 1500, 0, true);
    let (_, fx) = play_tick_with_target(&mut d, true, 900);
    assert!(fx.matched);
    assert_eq!(d.progress_index, 1);
    assert_eq!(d.target, 900);
}

#[test]
fn progress_commands_blink_active_stage() {
    let mut d = data(500, 1500, 0, true);
    let (_, fx) = play_tick(&mut d, false);
    assert_eq!((fx.led1, fx.led2, fx.led3), (LedCmd::Toggle, LedCmd::Keep, LedCmd::Keep));

    let mut d = data(500, 1500, 1, true);
    let (_, fx) = play_tick(&mut d, false);
    assert_eq!((fx.led1, fx.led2, fx.led3), (LedCmd::SetHigh, LedCmd::Toggle, LedCmd::Keep));

    let mut d = data(500, 1500, 2, true);
    let (_, fx) = play_tick(&mut d, false);
    assert_eq!((fx.led1, fx.led2, fx.led3), (LedCmd::SetHigh, LedCmd::SetHigh, LedCmd::Toggle));
}

#[test]
fn setup_emits_calibration_and_hands_over_to_play() {
    let mut d = data(800, PULSE_MAX_US, 0, true);
    let (phase, steps) = setup_handler(&mut d);
    assert_eq!(phase, Phase::Play);
    assert_eq!(steps.len(), 4);

    assert!(steps[0].progress_all_low);
    assert_eq!(steps[0].pulse_us, None);
    assert_eq!(steps[0].indicator, LedCmd::SetLow);

    assert!(!steps[1].progress_all_low);
    assert_eq!(steps[1].pulse_us, Some(PULSE_MIN_US));
    assert_eq!(steps[1].indicator, LedCmd::SetHigh);

    assert!(!steps[2].progress_all_low);
    assert_eq!(steps[2].pulse_us, Some(PULSE_MAX_US));
    assert_eq!(steps[2].indicator, LedCmd::SetLow);

    assert!(!steps[3].progress_all_low);
    assert_eq!(steps[3].pulse_us, Some(PULSE_NEUTRAL_US));
    assert_eq!(steps[3].indicator, LedCmd::SetHigh);

    for step in &steps {
        assert_eq!(step.sleep_ms, CALIBRATION_SLEEP_MS);
    }

    assert_eq!(d.needle_position, PULSE_NEUTRAL_US);
    assert_eq!(d.target, 800);
    assert_eq!(d.progress_index, 0);
    assert!(d.sweeping_clockwise);
}

#[test]
fn won_tick_blinks_everything() {
    let fx = won_tick();
    assert_eq!(fx.led1, LedCmd::Toggle);
    assert_eq!(fx.led2, LedCmd::Toggle);
    assert_eq!(fx.led3, LedCmd::Toggle);
    assert_eq!(fx.indicator, LedCmd::Toggle);
    assert_eq!(fx.pulse_us, None);
    assert_eq!(fx.sleep_ms, WON_SLEEP_MS);
    assert!(!fx.matched);
}

#[test]
fn initial_data_is_well_formed() {
    let d = initial_data();
    assert_eq!(d.progress_index, 0);
    assert_eq!(d.needle_position, PULSE_MAX_US);
    assert!(d.sweeping_clockwise);
    assert!(PULSE_MIN_US <= d.target && d.target <= PULSE_MAX_US);
    assert!(d.is_well_formed());
}

#[test]
fn fresh_targets_vary() {
    let first = initial_data().target;
    let mut saw_other = false;
    for _ in 0..100 {
        if initial_data().target != first {
            saw_other = true;
        }
    }
    assert!(saw_other);
}

#[test]
fn well_formedness_check_rejects_bad_data() {
    assert!(data(1500, 1500, 0, true).is_well_formed());
    assert!(!data(1500, 1480, 0, true).is_well_formed());
    assert!(!data(1500, 2600, 0, true).is_well_formed());
    assert!(!data(400, 1500, 0, true).is_well_formed());
    assert!(!data(1500, 1500, 4, true).is_well_formed());
}

#[test]
fn three_matches_win_the_game() {
    let mut d = data(600, PULSE_NEUTRAL_US, 0, true);
    for round in 1..=3usize {
        d.target = d.needle_position;
        let (next, fx) = play_tick_with_target(&mut d, true, 1500);
        assert!(fx.matched);
        assert_eq!(d.progress_index, round);
        assert_eq!(d.target, 1500);
        assert_eq!(next, Phase::Play);
    }
    let (next, fx) = play_tick_with_target(&mut d, true, 1500);
    assert_eq!(next, Phase::Won);
    assert!(!fx.matched);
    assert_eq!(d.progress_index, 3);
}
