use refspec_core::negotiate::window_size;

#[test]
fn initial_value_without_previous_window_size() {
    assert_eq!(window_size(false, None), 16);
    assert_eq!(window_size(true, None), 16);
}

#[test]
fn transport_is_stateless() {
    let mut ws = window_size(true, None);
    for expected in [32, 64, 128, 256, 512, 1024, 2048, 4096, 8192, 16384, 18022, 19824] {
        ws = window_size(true, Some(ws));
        assert_eq!(ws, expected);
    }
}

#[test]
fn transport_is_not_stateless() {
    let mut ws = window_size(false, None);
    for expected in [32, 64, 96] {
        ws = window_size(false, Some(ws));
        assert_eq!(ws, expected);
    }

    let mut ws = 4;
    for expected in [8, 16, 32, 64, 96] {
        ws = window_size(false, Some(ws));
        assert_eq!(ws, expected);
    }
}

#[test]
fn stateful_growth_past_the_doubling_limit_is_by_half() {
    assert_eq!(window_size(false, Some(32)), 64);
    assert_eq!(window_size(false, Some(64)), 96);
    assert_eq!(window_size(false, Some(65)), 97);
    assert_eq!(window_size(false, Some(63)), 126);
}

#[test]
fn stateless_growth_past_the_doubling_limit_rounds_down() {
    assert_eq!(window_size(true, Some(16383)), 32766);
    assert_eq!(window_size(true, Some(16384)), 18022);
    assert_eq!(window_size(true, Some(18022)), 19824);
    assert_eq!(window_size(true, Some(19)), 38);
}

#[test]
fn window_always_grows_from_a_positive_size() {
    for stateless in [true, false] {
        let mut ws = window_size(stateless, None);
        for _ in 0..60 {
            let next = window_size(stateless, Some(ws));
            assert!(next > ws);
            ws = next;
        }
        for p in [1usize, 2, 63, 64, 100, 16383, 16384, 1_000_000] {
            assert!(window_size(stateless, Some(p)) > p);
        }
    }
}

#[test]
fn zero_window_stays_zero() {
    assert_eq!(window_size(true, Some(0)), 0);
    assert_eq!(window_size(false, Some(0)), 0);
}
