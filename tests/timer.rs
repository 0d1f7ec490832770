use gfroerli::timer::ExtendedLptim;

#[test]
fn now_extends_counter_with_overflows() {
    let mut timer = ExtendedLptim::init(());
    assert_eq!(timer.now(0x1234, false), 0x1234);
    assert_eq!(timer.now(0x1234, true), 0x1_1234);
    assert!(timer.on_interrupt(true));
    assert!(!timer.on_interrupt(false));
    assert_eq!(timer.now(5, false), 0x1_0005);
    assert!(timer.on_interrupt(true));
    assert_eq!(timer.now(5, true), 0x3_0005);
}

#[test]
fn set_compare_near_deadline() {
    let timer = ExtendedLptim::init(());
    // now = 0x100, deadline 0x200 ahead
    assert_eq!(timer.set_compare(0x100, false, 0x300), 0x300);
    // now = 0x1_0100, deadline within the next period
    assert_eq!(timer.set_compare(0x100, true, 0x1_8000), 0x8000);
    // deadline exactly now
    assert_eq!(timer.set_compare(0x100, false, 0x100), 0x100);
    // deadline exactly 0xffff ahead
    assert_eq!(timer.set_compare(0, false, 0xffff), 0xffff);
}

#[test]
fn set_compare_far_or_past_deadline() {
    let timer = ExtendedLptim::init(());
    // more than 0xffff ticks ahead
    assert_eq!(timer.set_compare(0, false, 0x1_0000), 0);
    // in the past
    assert_eq!(timer.set_compare(0x200, false, 0x100), 0);
    // in the past across the wrap of the tick range
    assert_eq!(timer.set_compare(0x10, false, u32::MAX), 0);
}
