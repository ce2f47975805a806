use haptics_sdk::audio::frames_to_take;

#[test]
fn frames_within_the_declared_count_are_all_taken() {
    assert_eq!(frames_to_take(100, 1000, 0), 100);
    assert_eq!(frames_to_take(100, 1000, 900), 100);
}

#[test]
fn frames_past_the_declared_count_are_dropped() {
    assert_eq!(frames_to_take(100, 1000, 950), 50);
    assert_eq!(frames_to_take(100, 1000, 1000), 0);
    assert_eq!(frames_to_take(0, 0, 0), 0);
}
