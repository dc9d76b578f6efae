use led_control::animation::{
    animation_at, animation_frame, continues_while, frame_count, frame_delay_ms,
    get_all_animations, spiral_frame, AnimationType, NUM_ANIMATIONS,
};
use led_control::led::{Deployment, RgbState};
use led_control::player::{after_frame, begin_animation, run_frame, AnimationRun};

use RgbState::{Blue, Ciel, Green, Magenta, Off, Red, White, Yellow};

const KINDS: [AnimationType; 7] = [
    AnimationType::Blink,
    AnimationType::Wave,
    AnimationType::Snow,
    AnimationType::Alternate,
    AnimationType::Spiral,
    AnimationType::BottomUp,
    AnimationType::TopDown,
];

const DEPLOYMENTS: [Deployment; 2] = [Deployment::RaspberryPi, Deployment::LocalDev];

#[test]
fn animation_list_in_order() {
    let list = get_all_animations();
    assert_eq!(list.len(), NUM_ANIMATIONS);
    for (i, a) in list.iter().enumerate() {
        assert_eq!(a.animation_type, KINDS[i]);
        assert_eq!(animation_at(i).animation_type, KINDS[i]);
    }
}

#[test]
fn animation_names() {
    let pi: Vec<&str> = KINDS.iter().map(|k| k.wire_name(Deployment::RaspberryPi)).collect();
    assert_eq!(pi, vec!["blink", "wave", "snow", "alternate", "spiral", "bottom-up", "top-down"]);
    let dev: Vec<&str> = KINDS.iter().map(|k| k.wire_name(Deployment::LocalDev)).collect();
    assert_eq!(dev, vec!["blink", "wave", "snow", "alternate", "spiral", "buttom-up", "top-down"]);
}

#[test]
fn frame_counts() {
    let pi: Vec<usize> = KINDS.iter().map(|k| frame_count(Deployment::RaspberryPi, *k)).collect();
    assert_eq!(pi, vec![3, 4, 4, 4, 24, 4, 4]);
    let dev: Vec<usize> = KINDS.iter().map(|k| frame_count(Deployment::LocalDev, *k)).collect();
    assert_eq!(dev, vec![3, 4, 3, 4, 24, 4, 4]);
}

#[test]
fn blink_frames() {
    let d = Deployment::RaspberryPi;
    assert_eq!(animation_frame(d, AnimationType::Blink, 0), [White, Red, Green, Blue, Yellow, Magenta]);
    assert_eq!(animation_frame(d, AnimationType::Blink, 1), [Off; 6]);
    assert_eq!(animation_frame(d, AnimationType::Blink, 2), [Ciel, Magenta, Yellow, Blue, Green, Red]);
}

#[test]
fn snow_frames_differ_between_deployments() {
    assert_eq!(
        animation_frame(Deployment::RaspberryPi, AnimationType::Snow, 3),
        [Blue, Blue, Blue, White, White, White]
    );
    assert_eq!(
        animation_frame(Deployment::LocalDev, AnimationType::Snow, 1),
        [White, Ciel, Blue, Ciel, White, Ciel]
    );
}

#[test]
fn top_down_and_bottom_up_last_frames() {
    let d = Deployment::RaspberryPi;
    assert_eq!(
        animation_frame(d, AnimationType::TopDown, 3),
        [Ciel, Magenta, Magenta, Red, Red, Red]
    );
    assert_eq!(
        animation_frame(d, AnimationType::BottomUp, 3),
        [Yellow, Magenta, Magenta, Blue, Green, Ciel]
    );
    assert_eq!(animation_frame(d, AnimationType::Wave, 3), [Blue, Ciel, Green, Yellow, Red, Magenta]);
    assert_eq!(animation_frame(d, AnimationType::Alternate, 2), [Red, Ciel, Red, Ciel, Red, Ciel]);
}

#[test]
fn spiral_frames() {
    assert_eq!(spiral_frame(0), [Magenta, Off, Off, Off, Off, Off]);
    assert_eq!(spiral_frame(1), [Off, Off, Magenta, Off, Off, Off]);
    assert_eq!(spiral_frame(5), [Off, Magenta, Off, Off, Off, Off]);
    assert_eq!(spiral_frame(6), [Yellow, Off, Off, Off, Off, Off]);
    assert_eq!(spiral_frame(14), [Off, Off, Off, Off, Off, Ciel]);
    assert_eq!(spiral_frame(15), [Off, Off, Off, Off, Ciel, Off]);
    assert_eq!(spiral_frame(23), [Off, Red, Off, Off, Off, Off]);
    assert_eq!(animation_frame(Deployment::LocalDev, AnimationType::Spiral, 2), spiral_frame(2));
}

#[test]
fn spiral_lights_one_led_per_frame_and_every_led_per_round() {
    for round in 0..4 {
        let mut lit = [0; 6];
        for pos in 0..6 {
            let frame = spiral_frame(round * 6 + pos);
            let on: Vec<usize> = (0..6).filter(|&i| frame[i] != Off).collect();
            assert_eq!(on.len(), 1);
            lit[on[0]] += 1;
        }
        assert_eq!(lit, [1; 6]);
    }
}

#[test]
fn delays() {
    for k in KINDS {
        assert_eq!(frame_delay_ms(Deployment::RaspberryPi, k), 1000);
    }
    assert_eq!(frame_delay_ms(Deployment::LocalDev, AnimationType::Wave), 800);
    assert_eq!(frame_delay_ms(Deployment::LocalDev, AnimationType::Spiral), 300);
    assert_eq!(frame_delay_ms(Deployment::LocalDev, AnimationType::Snow), 1000);
}

#[test]
fn guards() {
    for k in KINDS {
        assert_eq!(continues_while(Deployment::RaspberryPi, k), k);
    }
    assert_eq!(continues_while(Deployment::LocalDev, AnimationType::Wave), AnimationType::Blink);
    assert_eq!(continues_while(Deployment::LocalDev, AnimationType::Snow), AnimationType::Blink);
    assert_eq!(continues_while(Deployment::LocalDev, AnimationType::Spiral), AnimationType::Spiral);
}

#[test]
fn undisturbed_run_plays_every_frame_in_order() {
    for d in DEPLOYMENTS {
        for idx in 0..NUM_ANIMATIONS {
            let mut run = begin_animation(idx);
            let kind = KINDS[idx];
            assert_eq!(run, AnimationRun { kind, frame: 0 });
            let guard = continues_while(d, kind);
            let mut shown = 1;
            while let Some(next) = after_frame(d, run, guard) {
                assert_eq!(next.frame, run.frame + 1);
                assert_eq!(run_frame(d, next), animation_frame(d, kind, next.frame));
                run = next;
                shown += 1;
            }
            assert_eq!(shown, frame_count(d, kind));
        }
    }
}

#[test]
fn new_choice_ends_the_run_after_one_frame_on_the_pi() {
    let run = begin_animation(2);
    assert_eq!(after_frame(Deployment::RaspberryPi, run, AnimationType::Wave), None);
    let run = AnimationRun { kind: AnimationType::Spiral, frame: 7 };
    assert_eq!(
        after_frame(Deployment::RaspberryPi, run, AnimationType::Spiral),
        Some(AnimationRun { kind: AnimationType::Spiral, frame: 8 })
    );
    assert_eq!(after_frame(Deployment::RaspberryPi, run, AnimationType::Blink), None);
}

#[test]
fn local_wave_stops_after_its_first_frame_while_selected() {
    let run = begin_animation(1);
    assert_eq!(after_frame(Deployment::LocalDev, run, AnimationType::Wave), None);
    assert_eq!(
        after_frame(Deployment::LocalDev, run, AnimationType::Blink),
        Some(AnimationRun { kind: AnimationType::Wave, frame: 1 })
    );
}

#[test]
fn last_frame_ends_the_run() {
    let run = AnimationRun { kind: AnimationType::Blink, frame: 2 };
    assert_eq!(after_frame(Deployment::RaspberryPi, run, AnimationType::Blink), None);
}

#[test]
fn animation_names_are_distinct() {
    for d in DEPLOYMENTS {
        for a in KINDS {
            for b in KINDS {
                assert_eq!(a.wire_name(d) == b.wire_name(d), a == b);
            }
        }
    }
}
