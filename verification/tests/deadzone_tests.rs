use steamdeck_touch::deadzone::should_emit;
use steamdeck_touch::report::SteamDeckDeviceReport;

fn report(lx: i16, ly: i16, lf: u16) -> SteamDeckDeviceReport {
    SteamDeckDeviceReport {
        l_pad_x: lx,
        l_pad_y: ly,
        l_pad_force: lf,
        r_pad_x: 0,
        r_pad_y: 0,
        r_pad_force: 0,
        l4: false,
    }
}

#[test]
fn small_move_stays_inside_deadzone() {
    let last = report(0, 0, 0);
    let current = report(10, 10, 0);
    assert!(!should_emit(&last, &current, 250000, 500));
}

#[test]
fn large_move_is_emitted() {
    let last = report(0, 0, 0);
    let current = report(600, 0, 0);
    assert!(should_emit(&last, &current, 250000, 500));
}

#[test]
fn distance_threshold_is_strict() {
    let last = report(0, 0, 0);
    let at_threshold = report(500, 0, 0);
    assert!(!should_emit(&last, &at_threshold, 250000, 500));
    let past_threshold = report(501, 0, 0);
    assert!(should_emit(&last, &past_threshold, 250000, 500));
}

#[test]
fn pressure_threshold_is_strict() {
    let last = report(0, 0, 0);
    let at_threshold = report(0, 0, 500);
    assert!(!should_emit(&last, &at_threshold, 250000, 500));
    let past_threshold = report(0, 0, 501);
    assert!(should_emit(&last, &past_threshold, 250000, 500));
}

#[test]
fn pressure_delta_works_both_ways() {
    let high = report(0, 0, 1000);
    let low = report(0, 0, 0);
    assert!(should_emit(&high, &low, 250000, 500));
    assert!(should_emit(&low, &high, 250000, 500));
}

#[test]
fn right_pad_also_triggers() {
    let last = report(0, 0, 0);
    let current = SteamDeckDeviceReport {
        l_pad_x: 0,
        l_pad_y: 0,
        l_pad_force: 0,
        r_pad_x: 0,
        r_pad_y: 600,
        r_pad_force: 0,
        l4: false,
    };
    assert!(should_emit(&last, &current, 250000, 500));
}

#[test]
fn diagonal_distance_adds_squares() {
    let last = report(0, 0, 0);
    let current = report(400, 400, 0);
    assert!(should_emit(&last, &current, 250000, 500));
    let closer = report(300, 300, 0);
    assert!(!should_emit(&last, &closer, 250000, 500));
}
