use charwall::pacer::{MainSleeper, TARGET_FRAME_NS};

#[test]
fn default_targets_sixty_hertz() {
    let s = MainSleeper::default();
    assert_eq!(s.target, TARGET_FRAME_NS);
    assert_eq!(s.passed, TARGET_FRAME_NS);
}

#[test]
fn early_frame_asks_for_the_remainder() {
    let mut s = MainSleeper::default();
    s.begin(1_000_000_000);
    let sleep = s.end(1_000_000_000 + 10_000_000);
    assert_eq!(sleep, TARGET_FRAME_NS - 10_000_000);
    assert_eq!(s.passed, TARGET_FRAME_NS);
}

#[test]
fn late_frame_asks_for_no_sleep() {
    let mut s = MainSleeper::default();
    s.begin(5_000_000_000);
    let sleep = s.end(5_000_000_000 + 20_000_000);
    assert_eq!(sleep, 0);
    assert_eq!(s.passed, 20_000_000);
}

#[test]
fn exactly_on_target_does_not_sleep() {
    let mut s = MainSleeper::default();
    s.begin(7_000);
    let sleep = s.end(7_000 + TARGET_FRAME_NS);
    assert_eq!(sleep, 0);
    assert_eq!(s.passed, TARGET_FRAME_NS);
}

#[test]
fn begin_only_moves_the_start_mark() {
    let mut s = MainSleeper::default();
    s.begin(42);
    assert_eq!(s.time0, 42);
    assert_eq!(s.target, TARGET_FRAME_NS);
    assert_eq!(s.passed, TARGET_FRAME_NS);
}
