use led_control::led::{NonRgbState, RgbState};
use led_control::pins::{
    all_pins_low, non_rgb_led_pin_level, rgb_led_pin_levels, rgb_leds_pin_levels, PinLevel,
};

fn lv(pin: u8, high: bool) -> PinLevel {
    PinLevel { pin, high }
}

#[test]
fn rgb_led_zero_white() {
    assert_eq!(
        rgb_led_pin_levels(0, RgbState::White),
        vec![lv(0, true), lv(1, true), lv(2, true)]
    );
}

#[test]
fn rgb_led_five_ciel() {
    assert_eq!(
        rgb_led_pin_levels(5, RgbState::Ciel),
        vec![lv(15, false), lv(16, true), lv(17, true)]
    );
}

#[test]
fn rgb_led_two_magenta() {
    assert_eq!(
        rgb_led_pin_levels(2, RgbState::Magenta),
        vec![lv(6, true), lv(7, false), lv(8, true)]
    );
}

#[test]
fn rgb_led_out_of_range_drives_nothing() {
    assert!(rgb_led_pin_levels(6, RgbState::Red).is_empty());
    assert!(rgb_led_pin_levels(255, RgbState::White).is_empty());
}

#[test]
fn non_rgb_led_pins() {
    assert_eq!(non_rgb_led_pin_level(0, NonRgbState::On), Some(lv(18, true)));
    assert_eq!(non_rgb_led_pin_level(1, NonRgbState::BlinkingOn), Some(lv(19, true)));
    assert_eq!(non_rgb_led_pin_level(1, NonRgbState::BlinkingOff), Some(lv(19, false)));
    assert_eq!(non_rgb_led_pin_level(0, NonRgbState::Off), Some(lv(18, false)));
    assert_eq!(non_rgb_led_pin_level(2, NonRgbState::On), None);
}

#[test]
fn every_pin_starts_low() {
    let levels = all_pins_low();
    assert_eq!(levels.len(), 20);
    for (i, l) in levels.iter().enumerate() {
        assert_eq!(*l, lv(i as u8, false));
    }
}

#[test]
fn a_whole_frame_on_the_pins() {
    let frame = [
        RgbState::White,
        RgbState::Red,
        RgbState::Green,
        RgbState::Blue,
        RgbState::Yellow,
        RgbState::Off,
    ];
    let levels = rgb_leds_pin_levels(&frame);
    let highs: Vec<bool> = levels.iter().map(|l| l.high).collect();
    assert_eq!(
        highs,
        vec![
            true, true, true, true, false, false, false, true, false, false, false, true, true,
            true, false, false, false, false
        ]
    );
    for (p, l) in levels.iter().enumerate() {
        assert_eq!(l.pin as usize, p);
    }
}

#[test]
fn pins_of_distinct_leds_are_disjoint() {
    let mut seen = std::collections::HashSet::new();
    for i in 0..6u8 {
        for l in rgb_led_pin_levels(i, RgbState::White) {
            assert!(seen.insert(l.pin));
            assert!(l.pin < 20);
        }
    }
    for j in 0..2u8 {
        let l = non_rgb_led_pin_level(j, NonRgbState::On).unwrap();
        assert!(seen.insert(l.pin));
        assert!(l.pin < 20);
    }
    assert_eq!(seen.len(), 20);
}
