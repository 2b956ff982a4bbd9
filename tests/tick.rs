use freertos::tick::FreeRtosInstant;

#[test]
fn tick_test() {
    assert_eq!(FreeRtosInstant::add(9, 0, 3, 9), (6, 0));
    assert_eq!(FreeRtosInstant::add(9, 0, 9, 9), (0, 0));
    assert_eq!(FreeRtosInstant::add(9, 0, 10, 9), (9, 1));
    assert_eq!(FreeRtosInstant::add(9, 0, 19, 9), (0, 1));
    assert_eq!(FreeRtosInstant::add(9, 0, 50, 9), (9, 5));
    assert_eq!(FreeRtosInstant::add(0, 0, 1, 9), (9, 1));
    assert_eq!(FreeRtosInstant::add(0, 0, 19, 9), (1, 2));

    let i = FreeRtosInstant::new(9, 0);
    assert_eq!(i.elapsed(4, 0, 9), 5);
    assert_eq!(i.elapsed(0, 0, 9), 9);
    let i = FreeRtosInstant::new(5, 0);
    assert_eq!(i.elapsed(9, 1, 9), 6);
    assert_eq!(i.elapsed(0, 1, 9), 15);
    assert_eq!(i.elapsed(6, 10, 9), 99);
}

#[test]
fn add_then_elapsed_gives_ticks_back() {
    for &(sys_tick, count) in &[(9u32, 0u32), (0, 0), (4, 7), (3, u32::MAX), (9, u32::MAX - 2)] {
        for ticks in [0u64, 1, 3, 9, 10, 11, 19, 50, 12345] {
            let (s, c) = FreeRtosInstant::add(sys_tick, count, ticks, 9);
            assert!(s <= 9);
            let from = FreeRtosInstant::new(sys_tick, count);
            assert_eq!(from.elapsed(s, c, 9), ticks);
        }
    }
}

#[test]
fn add_wraps_the_tick_count() {
    assert_eq!(FreeRtosInstant::add(0, u32::MAX, 1, 9), (9, 0));
    assert_eq!(FreeRtosInstant::add(5, u32::MAX - 1, 30, 9), (5, 1));
}

#[test]
fn add_with_largest_reload() {
    let r = u32::MAX;
    assert_eq!(FreeRtosInstant::add(r, 0, 1, r), (r - 1, 0));
    assert_eq!(FreeRtosInstant::add(0, 0, 1, r), (r, 1));
    assert_eq!(FreeRtosInstant::add(r, 0, 1u64 << 32, r), (r, 1));
}

#[test]
fn elapsed_across_tick_count_wrap() {
    let i = FreeRtosInstant::new(5, u32::MAX);
    assert_eq!(i.elapsed(9, 0, 9), 6);
    assert_eq!(i.elapsed(2, 1, 9), 23);
}

#[test]
fn now_prefers_second_sample_after_reload() {
    assert_eq!(FreeRtosInstant::now_tick_count(7, 3, 7, 2), (3, 7));
    assert_eq!(FreeRtosInstant::now_tick_count(7, 0, 8, 9), (9, 8));
    assert_eq!(FreeRtosInstant::now(7, 0, 8, 9), FreeRtosInstant::new(9, 8));
    assert_eq!(FreeRtosInstant::now(7, 4, 7, 1), FreeRtosInstant::new(4, 7));
}

#[test]
fn move_forward_matches_add() {
    let mut i = FreeRtosInstant::new(9, 0);
    i.move_forward(19, 9);
    assert_eq!(i, FreeRtosInstant::new(0, 1));
    i.move_forward(1, 9);
    assert_eq!(i, FreeRtosInstant::new(9, 2));
}
