use repac_splitter::Observation;
use repac_splitter::modes::split_checkpoints;
use repac_splitter::settings::Settings;

fn with_checkpoint_splits() -> Settings {
    let mut s = Settings::default();
    s.split_checkpoint = true;
    s
}

#[test]
fn jump_from_two_to_five_skips_two() {
    let s = with_checkpoint_splits();
    let pair = Observation { previous: 2i32, current: 5i32 };
    assert_eq!(split_checkpoints(&pair, &s), Some(2));
}

#[test]
fn sentinel_to_three_skips_two() {
    let s = with_checkpoint_splits();
    let pair = Observation { previous: -1i32, current: 3i32 };
    assert_eq!(split_checkpoints(&pair, &s), Some(2));
}

#[test]
fn decrease_never_splits() {
    let s = with_checkpoint_splits();
    let pair = Observation { previous: 5i32, current: 2i32 };
    assert_eq!(split_checkpoints(&pair, &s), None);
}

#[test]
fn single_step_needs_no_skips() {
    let s = with_checkpoint_splits();
    let pair = Observation { previous: 2i32, current: 3i32 };
    assert_eq!(split_checkpoints(&pair, &s), Some(0));
}

#[test]
fn unchanged_counter_never_splits() {
    let s = with_checkpoint_splits();
    let pair = Observation { previous: 4i32, current: 4i32 };
    assert_eq!(split_checkpoints(&pair, &s), None);
}

#[test]
fn disabled_checkpoint_option_never_splits() {
    let mut s = Settings::default();
    s.split_checkpoint = false;
    let pair = Observation { previous: 2i32, current: 5i32 };
    assert_eq!(split_checkpoints(&pair, &s), None);
}
