use repac_splitter::observation::Watcher;
use repac_splitter::observation::Watchers;
use repac_splitter::states::Stages;

#[test]
fn two_updates_shift_previous_and_current() {
    let mut q: Watcher<i32> = Watcher::new(0);
    q.update(7);
    q.update(9);
    let obs = q.obs();
    assert_eq!(obs.previous, 7);
    assert_eq!(obs.current, 9);
    assert!(obs.changed());
}

#[test]
fn two_equal_updates_are_no_change() {
    let mut q: Watcher<i32> = Watcher::new(0);
    q.update(4);
    q.update(4);
    let obs = q.obs();
    assert_eq!(obs.previous, 4);
    assert_eq!(obs.current, 4);
    assert!(!obs.changed());
}

#[test]
fn first_update_shifts_the_zero_value() {
    let mut q: Watcher<i32> = Watcher::new(0);
    q.update(5);
    let obs = q.obs();
    assert_eq!(obs.previous, 0);
    assert_eq!(obs.current, 5);
}

#[test]
fn unobserved_watcher_reads_as_zero_pair() {
    let q: Watcher<u32> = Watcher::new(3);
    let obs = q.obs();
    assert_eq!(obs.previous, 3);
    assert_eq!(obs.current, 3);
}

#[test]
fn numeric_edges() {
    let mut q: Watcher<u32> = Watcher::new(0);
    q.update(2);
    q.update(5);
    let obs = q.obs();
    assert!(obs.changed());
    assert!(obs.increased());
    assert!(!obs.decreased());
    q.update(1);
    let down = q.obs();
    assert!(down.decreased());
    assert!(!down.increased());
}

#[test]
fn fresh_watcher_set_is_all_zeroes() {
    let w = Watchers::new();
    assert_eq!(w.level_id.obs().current, Stages::Unknown);
    assert!(!w.is_loading.obs().current);
    assert_eq!(w.checkpoint.obs().current, 0);
    assert_eq!(w.boss_state.obs().current, 0);
}
