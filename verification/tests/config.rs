use dma_gpio::board::{is_banned_pin, BoardBuilder};
use dma_gpio::errors::ConfigError;
use dma_gpio::platform::get_model;

const PI3_REVISION: u32 = 0x00a02082;
const BUS_ADDR: u32 = 0x40000000;

#[test]
fn default_builder_configuration() {
    let b = BoardBuilder::new();
    assert_eq!(b.known_pins, vec![4, 17, 18, 27, 21, 22, 23, 24, 25]);
    assert_eq!(b.delay_hw, 0);
    assert_eq!(b.pwm_divisor, 500);
    assert_eq!(b.cycle_time, 2000);
    assert_eq!(b.sample_delay, 10);
    assert_eq!(b.num_samples(), 200);
}

#[test]
fn divide_pwm_clamps_to_1000() {
    assert_eq!(BoardBuilder::new().divide_pwm(2000).pwm_divisor, 1000);
    assert_eq!(BoardBuilder::new().divide_pwm(50).pwm_divisor, 50);
    assert_eq!(BoardBuilder::new().divide_pwm(0).pwm_divisor, 0);
}

#[test]
fn cycle_time_clamps_into_200_1000() {
    assert_eq!(BoardBuilder::new().set_cycle_time(100).cycle_time, 200);
    assert_eq!(BoardBuilder::new().set_cycle_time(5000).cycle_time, 1000);
    assert_eq!(BoardBuilder::new().set_cycle_time(400).cycle_time, 400);
}

#[test]
fn sample_delay_clamps_into_1_100() {
    assert_eq!(BoardBuilder::new().set_sample_delay(0).sample_delay, 1);
    assert_eq!(BoardBuilder::new().set_sample_delay(1000).sample_delay, 100);
    assert_eq!(BoardBuilder::new().set_sample_delay(2).sample_delay, 2);
}

#[test]
fn use_pcm_switches_pacing() {
    assert_eq!(BoardBuilder::new().use_pcm().delay_hw, 1);
}

#[test]
fn valid_pin_set_builds() {
    let platform = get_model(PI3_REVISION).unwrap();
    let board = BoardBuilder::new()
        .build_with_pins(vec![21, 22], platform, BUS_ADDR)
        .unwrap();
    assert_eq!(board.known_pins, vec![21, 22]);
    assert_eq!(board.num_active, 0);
}

#[test]
fn full_width_pin_set_builds() {
    // All 26 addressable, non-reserved, nonzero pins.
    let pins: Vec<u8> = (1u8..32).filter(|p| !is_banned_pin(*p)).collect();
    assert_eq!(pins.len(), 26);
    let platform = get_model(PI3_REVISION).unwrap();
    let board = BoardBuilder::new()
        .build_with_pins(pins.clone(), platform, BUS_ADDR)
        .unwrap();
    assert_eq!(board.known_pins, pins);
}

#[test]
fn duplicate_pin_is_invalid() {
    let platform = get_model(PI3_REVISION).unwrap();
    let r = BoardBuilder::new().build_with_pins(vec![21, 22, 21], platform, BUS_ADDR);
    assert_eq!(r.err().unwrap(), ConfigError::InvalidPin);
}

#[test]
fn banned_pin_is_refused() {
    let platform = get_model(PI3_REVISION).unwrap();
    let r = BoardBuilder::new().build_with_pins(vec![21, 6], platform, BUS_ADDR);
    assert_eq!(r.err().unwrap(), ConfigError::BannedPin);
}

#[test]
fn zero_pin_is_invalid() {
    let platform = get_model(PI3_REVISION).unwrap();
    let r = BoardBuilder::new().build_with_pins(vec![0, 21], platform, BUS_ADDR);
    assert_eq!(r.err().unwrap(), ConfigError::InvalidPin);
}

#[test]
fn out_of_range_pin_is_invalid() {
    let platform = get_model(PI3_REVISION).unwrap();
    let r = BoardBuilder::new().build_with_pins(vec![32], platform, BUS_ADDR);
    assert_eq!(r.err().unwrap(), ConfigError::InvalidPin);
}

#[test]
fn oversized_pin_set_is_refused() {
    let platform = get_model(PI3_REVISION).unwrap();
    let pins: Vec<u8> = (0u8..33).collect();
    let r = BoardBuilder::new().build_with_pins(pins, platform, BUS_ADDR);
    assert_eq!(r.err().unwrap(), ConfigError::TooManyChannels);
}

#[test]
fn first_offending_pin_decides_the_error() {
    let platform = get_model(PI3_REVISION).unwrap();
    // The banned pin comes before the duplicate.
    let r = BoardBuilder::new().build_with_pins(vec![21, 6, 21], platform, BUS_ADDR);
    assert_eq!(r.err().unwrap(), ConfigError::BannedPin);
}

#[test]
fn banned_pins_are_the_reserved_set() {
    let banned = [6u8, 28, 29, 30, 31, 40, 45, 46, 47, 48, 49, 50, 51, 52, 53];
    for pin in 0u8..=255 {
        assert_eq!(is_banned_pin(pin), banned.contains(&pin));
    }
}

#[test]
fn config_error_messages() {
    assert_eq!(ConfigError::InvalidPin.message(), "invalid gpio pin");
    assert_eq!(ConfigError::BannedPin.message(), "banned gpio pin");
    assert_eq!(
        ConfigError::TooManyChannels.message(),
        "number of pins exceeds max number of channels"
    );
}
