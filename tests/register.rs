use legion_led::register::{led_write, new_led_value, EC_PATH, LED_BIT, LED_MASK, LED_OFFSET, VAL_SLEEP_MODE, VAL_WAKE_MODE};

fn apply(v: u8, m: bool, writes: &mut u32) -> u8 {
    match led_write(v, m) {
        Some(n) => {
            *writes += 1;
            n
        }
        None => v,
    }
}

#[test]
fn example_bits_zero_and_two() {
    assert_eq!(new_led_value(0x05, true), 0x45);
    assert_eq!(new_led_value(0x45, false), 0x05);
    assert_eq!(led_write(0x05, true), Some(0x45));
    assert_eq!(led_write(0x45, false), Some(0x05));
}

#[test]
fn only_designated_bit_changes_for_every_byte() {
    for v in 0u16..=255 {
        let v = v as u8;
        for m in [false, true] {
            let r = new_led_value(v, m);
            assert_eq!(r & !LED_MASK, v & !LED_MASK);
            assert_eq!(r & LED_MASK != 0, m);
        }
    }
}

#[test]
fn no_write_when_mode_already_held() {
    assert_eq!(led_write(0x45, true), None);
    assert_eq!(led_write(0x05, false), None);
    assert_eq!(led_write(0x00, false), None);
    assert_eq!(led_write(0xff, true), None);
    assert_eq!(led_write(0xff, false), Some(0xbf));
    assert_eq!(led_write(0x00, true), Some(0x40));
}

#[test]
fn same_mode_twice_writes_once() {
    for v in [0x00u8, 0x05, 0x40, 0x45, 0xbf, 0xff] {
        for m in [false, true] {
            let mut writes: u32 = 0;
            let once = apply(v, m, &mut writes);
            let twice = apply(once, m, &mut writes);
            assert_eq!(once, twice);
            let expected: u32 = if new_led_value(v, m) != v { 1 } else { 0 };
            assert_eq!(writes, expected);
        }
    }
    let mut writes: u32 = 0;
    let v = apply(0x05, true, &mut writes);
    apply(v, true, &mut writes);
    assert_eq!(writes, 1);
}

#[test]
fn disable_then_enable_restores_byte() {
    for v in 0u16..=255 {
        let v = v as u8;
        if v & LED_MASK == 0 {
            assert_eq!(new_led_value(new_led_value(v, true), false), v);
        }
    }
    assert_eq!(new_led_value(new_led_value(0x05, true), false), 0x05);
    assert_eq!(new_led_value(new_led_value(0x45, true), false), 0x05);
}

#[test]
fn fixed_constants() {
    assert_eq!(LED_MASK, 1u8 << LED_BIT);
    assert_eq!(LED_MASK, 0x40);
    assert_eq!(LED_OFFSET, 0x10);
    assert_eq!(EC_PATH, "/sys/kernel/debug/ec/ec0/io");
    assert!(VAL_SLEEP_MODE);
    assert!(!VAL_WAKE_MODE);
}
