use repac_splitter::Observation;
use repac_splitter::modes::split_boss_phase;
use repac_splitter::settings::Settings;

fn with_phase_splits() -> Settings {
    let mut s = Settings::default();
    s.split_boss_phase = true;
    s
}

#[test]
fn oscillating_phase_splits_once() {
    let s = with_phase_splits();
    let mut highest: u32 = 0;
    let mut splits: u32 = 0;
    // Phase sequence 1 -> 2 -> 1 -> 2, one observation pair per transition.
    let transitions = [(1u32, 2u32), (2, 1), (1, 2)];
    for (previous, current) in transitions {
        let pair = Observation { previous, current };
        if split_boss_phase(&pair, &s, &mut highest) {
            splits += 1;
        }
    }
    assert_eq!(splits, 1);
    assert_eq!(highest, 2);
}

#[test]
fn phase_one_is_below_the_split_floor() {
    let s = with_phase_splits();
    let mut highest: u32 = 0;
    let pair = Observation { previous: 0u32, current: 1u32 };
    assert!(!split_boss_phase(&pair, &s, &mut highest));
    assert_eq!(highest, 0);
}

#[test]
fn a_jump_of_two_is_not_a_split() {
    let s = with_phase_splits();
    let mut highest: u32 = 0;
    let pair = Observation { previous: 1u32, current: 3u32 };
    assert!(!split_boss_phase(&pair, &s, &mut highest));
}

#[test]
fn one_step_past_the_mark_splits_and_raises_it() {
    let s = with_phase_splits();
    let mut highest: u32 = 2;
    let pair = Observation { previous: 2u32, current: 3u32 };
    assert!(split_boss_phase(&pair, &s, &mut highest));
    assert_eq!(highest, 3);
}

#[test]
fn disabled_phase_option_never_splits() {
    let mut s = Settings::default();
    s.split_boss_phase = false;
    let mut highest: u32 = 0;
    let pair = Observation { previous: 1u32, current: 2u32 };
    assert!(!split_boss_phase(&pair, &s, &mut highest));
}
