use led_control::led::{
    possible_non_rgb_led_states, possible_rgb_led_states, Deployment, NonRgbRequestState,
    NonRgbState, RgbState,
};

const ALL_RGB: [RgbState; 8] = [
    RgbState::White,
    RgbState::Red,
    RgbState::Green,
    RgbState::Blue,
    RgbState::Yellow,
    RgbState::Magenta,
    RgbState::Ciel,
    RgbState::Off,
];

const ALL_NON_RGB: [NonRgbState; 4] = [
    NonRgbState::On,
    NonRgbState::BlinkingOn,
    NonRgbState::BlinkingOff,
    NonRgbState::Off,
];

const ALL_REQUESTS: [NonRgbRequestState; 3] =
    [NonRgbRequestState::On, NonRgbRequestState::Blinking, NonRgbRequestState::Off];

#[test]
fn colour_channels_follow_the_common_cathode_wiring() {
    assert_eq!(RgbState::White.channels(), (true, true, true));
    assert_eq!(RgbState::Red.channels(), (true, false, false));
    assert_eq!(RgbState::Green.channels(), (false, true, false));
    assert_eq!(RgbState::Blue.channels(), (false, false, true));
    assert_eq!(RgbState::Yellow.channels(), (true, true, false));
    assert_eq!(RgbState::Magenta.channels(), (true, false, true));
    assert_eq!(RgbState::Ciel.channels(), (false, true, true));
    assert_eq!(RgbState::Off.channels(), (false, false, false));
}

#[test]
fn distinct_colours_light_distinct_channels() {
    for a in ALL_RGB {
        for b in ALL_RGB {
            assert_eq!(a.channels() == b.channels(), a == b);
        }
    }
}

#[test]
fn colour_names_per_deployment() {
    assert_eq!(RgbState::Magenta.wire_name(Deployment::RaspberryPi), "magenta");
    assert_eq!(RgbState::Magenta.wire_name(Deployment::LocalDev), "purple");
    assert_eq!(RgbState::Ciel.wire_name(Deployment::LocalDev), "ciel");
    assert_eq!(RgbState::Off.wire_name(Deployment::RaspberryPi), "off");
    for d in [Deployment::RaspberryPi, Deployment::LocalDev] {
        for a in ALL_RGB {
            for b in ALL_RGB {
                assert_eq!(a.wire_name(d) == b.wire_name(d), a == b);
            }
        }
    }
}

#[test]
fn possible_led_states_lists() {
    assert_eq!(
        possible_rgb_led_states(Deployment::RaspberryPi),
        vec!["white", "red", "green", "blue", "yellow", "magenta", "ciel", "off"]
    );
    assert_eq!(
        possible_rgb_led_states(Deployment::LocalDev),
        vec!["white", "red", "green", "blue", "yellow", "purple", "ciel", "off"]
    );
    assert_eq!(possible_non_rgb_led_states(), vec!["on", "blinking", "off"]);
}

#[test]
fn non_rgb_state_names() {
    assert_eq!(NonRgbState::On.wire_name(), "on");
    assert_eq!(NonRgbState::BlinkingOn.wire_name(), "blinking-on");
    assert_eq!(NonRgbState::BlinkingOff.wire_name(), "blinking-off");
    assert_eq!(NonRgbState::Off.wire_name(), "off");
    assert_eq!(NonRgbRequestState::Blinking.wire_name(), "blinking");
}

#[test]
fn lit_states() {
    assert!(NonRgbState::On.is_lit());
    assert!(NonRgbState::BlinkingOn.is_lit());
    assert!(!NonRgbState::BlinkingOff.is_lit());
    assert!(!NonRgbState::Off.is_lit());
}

#[test]
fn tick_toggles_blinking_and_keeps_steady_states() {
    assert_eq!(NonRgbState::On.tick(), NonRgbState::On);
    assert_eq!(NonRgbState::Off.tick(), NonRgbState::Off);
    assert_eq!(NonRgbState::BlinkingOn.tick(), NonRgbState::BlinkingOff);
    assert_eq!(NonRgbState::BlinkingOff.tick(), NonRgbState::BlinkingOn);
}

#[test]
fn two_ticks_are_identity() {
    for s in ALL_NON_RGB {
        assert_eq!(s.tick().tick(), s);
    }
}

#[test]
fn requests_apply() {
    assert_eq!(NonRgbState::BlinkingOn.apply(NonRgbRequestState::On), NonRgbState::On);
    assert_eq!(NonRgbState::On.apply(NonRgbRequestState::Off), NonRgbState::Off);
    assert_eq!(NonRgbState::On.apply(NonRgbRequestState::Blinking), NonRgbState::BlinkingOff);
    assert_eq!(NonRgbState::Off.apply(NonRgbRequestState::Blinking), NonRgbState::BlinkingOff);
    assert_eq!(
        NonRgbState::BlinkingOn.apply(NonRgbRequestState::Blinking),
        NonRgbState::BlinkingOn
    );
    assert_eq!(
        NonRgbState::BlinkingOff.apply(NonRgbRequestState::Blinking),
        NonRgbState::BlinkingOff
    );
}

#[test]
fn requests_are_idempotent() {
    for s in ALL_NON_RGB {
        for r in ALL_REQUESTS {
            assert_eq!(s.apply(r).apply(r), s.apply(r));
        }
    }
}

#[test]
fn blink_request_lights_on_next_tick() {
    for s in [NonRgbState::On, NonRgbState::Off] {
        let after = s.apply(NonRgbRequestState::Blinking).tick();
        assert_eq!(after, NonRgbState::BlinkingOn);
        assert!(after.is_lit());
    }
}

#[test]
fn non_rgb_names_are_distinct() {
    for a in ALL_NON_RGB {
        for b in ALL_NON_RGB {
            assert_eq!(a.wire_name() == b.wire_name(), a == b);
        }
    }
}
