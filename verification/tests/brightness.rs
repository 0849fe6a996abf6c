use wordclock::brightness::{BrightnessControl, DutyStep, DIM_STEP_DELAY_MS};

#[test]
fn init_starts_dark() {
    let c = BrightnessControl::init();
    assert_eq!(c.words_current, 0);
    assert_eq!(c.minutes_current, 0);
}

#[test]
fn update_targets_a_fifth_of_max() {
    let mut c = BrightnessControl::init();
    let written = c.update(1000, 500, 1234);
    assert_eq!(written, DutyStep { words: 200, minutes: 100 });
    assert_eq!(c.words_current, 200);
    assert_eq!(c.minutes_current, 100);
}

#[test]
fn dim_down_walks_ten_steps_to_zero() {
    let mut c = BrightnessControl::init();
    c.update(1000, 500, 0);
    let steps = c.dim_down();
    assert_eq!(steps.len(), 10);
    let words: Vec<u16> = steps.iter().map(|s| s.words).collect();
    assert_eq!(words, vec![180, 160, 140, 120, 100, 80, 60, 40, 20, 0]);
    let minutes: Vec<u16> = steps.iter().map(|s| s.minutes).collect();
    assert_eq!(minutes, vec![90, 80, 70, 60, 50, 40, 30, 20, 10, 0]);
}

#[test]
fn dim_up_walks_ten_steps_back() {
    let mut c = BrightnessControl::init();
    c.update(1000, 500, 0);
    let steps = c.dim_up();
    assert_eq!(steps.len(), 10);
    let words: Vec<u16> = steps.iter().map(|s| s.words).collect();
    assert_eq!(words, vec![20, 40, 60, 80, 100, 120, 140, 160, 180, 200]);
}

#[test]
fn dim_round_trip_restores_duty() {
    let mut c = BrightnessControl::init();
    c.update(777, 333, 42);
    let before = (c.words_current, c.minutes_current);
    let down = c.dim_down();
    let up = c.dim_up();
    assert_eq!(down.len(), 10);
    assert_eq!(up.len(), 10);
    assert_eq!(down[9], DutyStep { words: 0, minutes: 0 });
    assert_eq!(up[9], DutyStep { words: before.0, minutes: before.1 });
    assert_eq!((c.words_current, c.minutes_current), before);
}

#[test]
fn tiny_duty_rounds_down_but_returns() {
    let mut c = BrightnessControl::init();
    c.update(7, 9, 0);
    assert_eq!(c.words_current, 1);
    assert_eq!(c.minutes_current, 1);
    let down = c.dim_down();
    // 1 * (10 - i) / 10 rounds to zero from the first step on
    assert!(down.iter().all(|s| s.words == 0 && s.minutes == 0));
    let up = c.dim_up();
    assert_eq!(up[9], DutyStep { words: 1, minutes: 1 });
    assert!(up[0..9].iter().all(|s| s.words == 0 && s.minutes == 0));
}

#[test]
fn step_delay_is_twenty_milliseconds() {
    assert_eq!(DIM_STEP_DELAY_MS, 20);
}
