use fan_controller::power::{PowerCommand, PowerLevel, DUTY_LOW, DUTY_MEDIUM, DUTY_OFF};

const LEVELS: [PowerLevel; 3] = [PowerLevel::Off, PowerLevel::Low, PowerLevel::Medium];

#[test]
fn wire_values_of_the_levels() {
    assert_eq!(PowerLevel::Off.byte(), 0);
    assert_eq!(PowerLevel::Low.byte(), 80);
    assert_eq!(PowerLevel::Medium.byte(), 100);
}

#[test]
fn levels_read_back_from_their_wire_values() {
    for level in LEVELS {
        assert_eq!(PowerLevel::from_byte(level.byte()), Some(level));
    }
}

#[test]
fn no_other_byte_is_a_level() {
    for value in 0..=255u8 {
        let expected = match value {
            0 => Some(PowerLevel::Off),
            80 => Some(PowerLevel::Low),
            100 => Some(PowerLevel::Medium),
            _ => None,
        };
        assert_eq!(PowerLevel::from_byte(value), expected);
    }
    assert_eq!(PowerLevel::from_byte(111), None);
}

#[test]
fn duty_of_each_level() {
    assert_eq!(PowerLevel::Off.duty(), 0x0000);
    assert_eq!(PowerLevel::Low.duty(), 0x6000);
    assert_eq!(PowerLevel::Medium.duty(), 0x8000);
    assert_eq!(DUTY_OFF, 0);
    assert_eq!(DUTY_LOW, 24576);
    assert_eq!(DUTY_MEDIUM, 32768);
}

#[test]
fn increase_walks_up_the_ladder() {
    assert_eq!(PowerLevel::Off.raised(), PowerLevel::Low);
    assert_eq!(PowerLevel::Low.raised(), PowerLevel::Medium);
    assert_eq!(PowerLevel::Off.apply(PowerCommand::Increase), PowerLevel::Low);
    assert_eq!(PowerLevel::Low.apply(PowerCommand::Increase), PowerLevel::Medium);
}

#[test]
fn decrease_walks_down_the_ladder() {
    assert_eq!(PowerLevel::Medium.lowered(), PowerLevel::Low);
    assert_eq!(PowerLevel::Low.lowered(), PowerLevel::Off);
    assert_eq!(PowerLevel::Medium.apply(PowerCommand::Decrease), PowerLevel::Low);
    assert_eq!(PowerLevel::Low.apply(PowerCommand::Decrease), PowerLevel::Off);
}

#[test]
fn saturation_is_idempotent() {
    let mut top = PowerLevel::Medium;
    let mut bottom = PowerLevel::Off;
    for _ in 0..5 {
        top = top.apply(PowerCommand::Increase);
        bottom = bottom.apply(PowerCommand::Decrease);
        assert_eq!(top, PowerLevel::Medium);
        assert_eq!(bottom, PowerLevel::Off);
    }
}

#[test]
fn commands_never_leave_the_vocabulary() {
    for level in LEVELS {
        for command in [PowerCommand::Increase, PowerCommand::Decrease] {
            let value = level.apply(command).byte();
            assert!(value == 0 || value == 80 || value == 100);
        }
    }
}

#[test]
fn ladder_order_matches_wire_and_duty_order() {
    for pair in LEVELS.windows(2) {
        assert!(pair[0].byte() < pair[1].byte());
        assert!(pair[0].duty() < pair[1].duty());
        assert_eq!(pair[0].raised(), pair[1]);
        assert_eq!(pair[1].lowered(), pair[0]);
    }
}
