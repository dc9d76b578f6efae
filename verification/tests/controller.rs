use led_control::animation::AnimationType;
use led_control::controller::{
    InvalidAnimationId, InvalidNonRgbLedId, InvalidRgbLedId, LedController,
};
use led_control::led::{NonRgbLedRequest, NonRgbRequestState, NonRgbState, RgbState};
use led_control::pins::PinLevel;

fn req(id: u8, state: NonRgbRequestState) -> NonRgbLedRequest {
    NonRgbLedRequest { id, state }
}

#[test]
fn starts_dark_on_the_first_animation() {
    let c = LedController::new();
    assert_eq!(c.rgb_leds(), [RgbState::Off; 6]);
    assert_eq!(c.non_rgb_leds(), [NonRgbState::Off; 2]);
    assert_eq!(c.current_animation_idx(), 0);
    assert_eq!(c.get_current_animation_type(), AnimationType::Blink);
}

#[test]
fn set_animation_accepts_ids_in_the_list() {
    let mut c = LedController::new();
    assert_eq!(c.set_animation(4), Ok(()));
    assert_eq!(c.current_animation_idx(), 4);
    assert_eq!(c.get_current_animation_type(), AnimationType::Spiral);
    assert_eq!(c.set_animation(6), Ok(()));
    assert_eq!(c.get_current_animation_type(), AnimationType::TopDown);
}

#[test]
fn set_animation_refuses_ids_past_the_list() {
    let mut c = LedController::new();
    c.set_animation(3).unwrap();
    assert_eq!(c.set_animation(7), Err(InvalidAnimationId { id: 7 }));
    assert_eq!(c.current_animation_idx(), 3);
    let err = c.set_animation(42).unwrap_err();
    assert_eq!(err.message(), "Invalid animation ID='42'. Expected a value between 0 and 6");
}

#[test]
fn next_wraps_after_the_last() {
    let mut c = LedController::new();
    c.set_animation(6).unwrap();
    assert_eq!(c.next_animation(), 0);
    assert_eq!(c.next_animation(), 1);
    assert_eq!(c.get_current_animation_type(), AnimationType::Wave);
}

#[test]
fn prev_wraps_before_the_first() {
    let mut c = LedController::new();
    assert_eq!(c.prev_animation(), 6);
    assert_eq!(c.get_current_animation_type(), AnimationType::TopDown);
    assert_eq!(c.prev_animation(), 5);
}

#[test]
fn next_and_prev_undo_each_other() {
    for start in 0..7 {
        let mut c = LedController::new();
        c.set_animation(start).unwrap();
        c.next_animation();
        assert_eq!(c.prev_animation(), start);
        c.prev_animation();
        assert_eq!(c.next_animation(), start);
    }
}

#[test]
fn seven_steps_go_round_the_list() {
    let mut c = LedController::new();
    c.set_animation(2).unwrap();
    for _ in 0..7 {
        c.next_animation();
    }
    assert_eq!(c.current_animation_idx(), 2);
}

#[test]
fn set_non_rgb_led_on_off_blinking() {
    let mut c = LedController::new();
    assert_eq!(c.set_non_rgb_led(req(0, NonRgbRequestState::On)), Ok(()));
    assert_eq!(c.non_rgb_leds(), [NonRgbState::On, NonRgbState::Off]);
    assert_eq!(c.set_non_rgb_led(req(1, NonRgbRequestState::Blinking)), Ok(()));
    assert_eq!(c.non_rgb_leds(), [NonRgbState::On, NonRgbState::BlinkingOff]);
    c.tick_non_rgb_leds();
    assert_eq!(c.non_rgb_leds(), [NonRgbState::On, NonRgbState::BlinkingOn]);
    assert_eq!(c.set_non_rgb_led(req(1, NonRgbRequestState::Blinking)), Ok(()));
    assert_eq!(c.non_rgb_leds(), [NonRgbState::On, NonRgbState::BlinkingOn]);
    assert_eq!(c.set_non_rgb_led(req(0, NonRgbRequestState::Off)), Ok(()));
    assert_eq!(c.non_rgb_leds(), [NonRgbState::Off, NonRgbState::BlinkingOn]);
}

#[test]
fn set_non_rgb_led_refuses_unknown_led() {
    let mut c = LedController::new();
    c.set_non_rgb_led(req(0, NonRgbRequestState::On)).unwrap();
    let err = c.set_non_rgb_led(req(2, NonRgbRequestState::Off)).unwrap_err();
    assert_eq!(err, InvalidNonRgbLedId { id: 2 });
    assert_eq!(err.message(), "Invalid non-RGB LED ID='2'. Expected a value between 0 and 1");
    assert_eq!(c.non_rgb_leds(), [NonRgbState::On, NonRgbState::Off]);
    let err = c.set_non_rgb_led(req(255, NonRgbRequestState::On)).unwrap_err();
    assert_eq!(err.message(), "Invalid non-RGB LED ID='255'. Expected a value between 0 and 1");
}

#[test]
fn same_request_twice_is_once() {
    let mut once = LedController::new();
    let mut twice = LedController::new();
    let r = req(1, NonRgbRequestState::Blinking);
    once.set_non_rgb_led(r).unwrap();
    twice.set_non_rgb_led(r).unwrap();
    twice.set_non_rgb_led(r).unwrap();
    assert_eq!(once.non_rgb_leds(), twice.non_rgb_leds());
}

#[test]
fn tick_gives_the_pin_levels() {
    let mut c = LedController::new();
    c.set_non_rgb_led(req(0, NonRgbRequestState::Blinking)).unwrap();
    c.set_non_rgb_led(req(1, NonRgbRequestState::On)).unwrap();
    let levels = c.tick_non_rgb_leds();
    assert_eq!(levels, vec![PinLevel { pin: 18, high: true }, PinLevel { pin: 19, high: true }]);
    let levels = c.tick_non_rgb_leds();
    assert_eq!(levels, vec![PinLevel { pin: 18, high: false }, PinLevel { pin: 19, high: true }]);
    assert_eq!(c.non_rgb_leds(), [NonRgbState::BlinkingOff, NonRgbState::On]);
}

#[test]
fn two_ticks_restore_the_leds() {
    let mut c = LedController::new();
    c.set_non_rgb_led(req(0, NonRgbRequestState::Blinking)).unwrap();
    let before = c.non_rgb_leds();
    c.tick_non_rgb_leds();
    c.tick_non_rgb_leds();
    assert_eq!(c.non_rgb_leds(), before);
}

#[test]
fn show_frame_sets_the_rgb_leds_and_gives_their_pins() {
    let mut c = LedController::new();
    let frame = [
        RgbState::Red,
        RgbState::Off,
        RgbState::Off,
        RgbState::Off,
        RgbState::Off,
        RgbState::Blue,
    ];
    let levels = c.show_frame(&frame);
    assert_eq!(c.rgb_leds(), frame);
    assert_eq!(levels.len(), 18);
    assert_eq!(levels[0], PinLevel { pin: 0, high: true });
    assert_eq!(levels[17], PinLevel { pin: 17, high: true });
    assert_eq!(levels.iter().filter(|l| l.high).count(), 2);
    assert_eq!(c.non_rgb_leds(), [NonRgbState::Off; 2]);
}

#[test]
fn get_rgb_led_reads_and_refuses() {
    let mut c = LedController::new();
    c.show_frame(&[
        RgbState::White,
        RgbState::Red,
        RgbState::Green,
        RgbState::Blue,
        RgbState::Yellow,
        RgbState::Magenta,
    ]);
    assert_eq!(c.get_rgb_led(0), Ok(RgbState::White));
    assert_eq!(c.get_rgb_led(5), Ok(RgbState::Magenta));
    let err = c.get_rgb_led(7).unwrap_err();
    assert_eq!(err, InvalidRgbLedId { id: 7 });
    assert_eq!(err.message(), "Invalid non-RGB LED ID='7'. Expected a value between 1 and 2");
}

#[test]
fn get_non_rgb_led_reads() {
    let mut c = LedController::new();
    c.set_non_rgb_led(req(1, NonRgbRequestState::On)).unwrap();
    assert_eq!(c.get_non_rgb_led(0), NonRgbState::Off);
    assert_eq!(c.get_non_rgb_led(1), NonRgbState::On);
}
