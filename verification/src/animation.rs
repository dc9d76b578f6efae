use vstd::prelude::*;
use crate::led::{Deployment, RgbState, NUM_RGB_LEDS};

verus! {

/// One of the animations the RGB LEDs can play.
#[derive(Clone, Copy, Debug, PartialEq, Eq, Structural)]
pub enum AnimationType {
    Blink,
    Wave,
    Snow,
    Alternate,
    Spiral,
    BottomUp,
    TopDown,
}

/// An entry of the animation list.
#[derive(Clone, Copy, Debug, PartialEq, Eq, Structural)]
pub struct Animation {
    pub animation_type: AnimationType,
}

/// Number of animations in the list.
pub const NUM_ANIMATIONS: usize = 7;

/// The animation list, by index: the ids clients use for animations.
pub open spec fn spec_animation_at(idx: int) -> AnimationType {
    if idx == 0 {
        AnimationType::Blink
    } else if idx == 1 {
        AnimationType::Wave
    } else if idx == 2 {
        AnimationType::Snow
    } else if idx == 3 {
        AnimationType::Alternate
    } else if idx == 4 {
        AnimationType::Spiral
    } else if idx == 5 {
        AnimationType::BottomUp
    } else {
        AnimationType::TopDown
    }
}

/// The entry of the animation list at `idx`.
pub fn animation_at(idx: usize) -> (animation: Animation)
    requires
        idx < NUM_ANIMATIONS,
    ensures
        animation.animation_type == spec_animation_at(idx as int),
{
    let animation_type = if idx == 0 {
        AnimationType::Blink
    } else if idx == 1 {
        AnimationType::Wave
    } else if idx == 2 {
        AnimationType::Snow
    } else if idx == 3 {
        AnimationType::Alternate
    } else if idx == 4 {
        AnimationType::Spiral
    } else if idx == 5 {
        AnimationType::BottomUp
    } else {
        AnimationType::TopDown
    };
    Animation { animation_type }
}

/// The whole animation list, in id order.
pub fn get_all_animations() -> (list: Vec<Animation>)
    ensures
        list@.len() == NUM_ANIMATIONS,
        forall|i: int|
            0 <= i < NUM_ANIMATIONS ==> #[trigger] list@[i].animation_type == spec_animation_at(i),
{
    let mut list: Vec<Animation> = Vec::new();
    for i in 0..NUM_ANIMATIONS
        invariant
            list@.len() == i,
            forall|j: int| 0 <= j < i ==> #[trigger] list@[j].animation_type == spec_animation_at(j),
    {
        list.push(animation_at(i));
    }
    list
}

impl AnimationType {
    /// The id of this animation in the animation list.
    pub open spec fn spec_index(self) -> int {
        match self {
            AnimationType::Blink => 0,
            AnimationType::Wave => 1,
            AnimationType::Snow => 2,
            AnimationType::Alternate => 3,
            AnimationType::Spiral => 4,
            AnimationType::BottomUp => 5,
            AnimationType::TopDown => 6,
        }
    }

    /// The name under which the animation travels in JSON.
    pub open spec fn spec_wire_name(self, deployment: Deployment) -> Seq<char> {
        match self {
            AnimationType::Blink => "blink"@,
            AnimationType::Wave => "wave"@,
            AnimationType::Snow => "snow"@,
            AnimationType::Alternate => "alternate"@,
            AnimationType::Spiral => "spiral"@,
            AnimationType::BottomUp => match deployment {
                Deployment::RaspberryPi => "bottom-up"@,
                Deployment::LocalDev => "buttom-up"@,
            },
            AnimationType::TopDown => "top-down"@,
        }
    }

    /// The name under which the animation travels in JSON.
    pub fn wire_name(self, deployment: Deployment) -> (name: &'static str)
        ensures
            name@ == self.spec_wire_name(deployment),
    {
        match self {
            AnimationType::Blink => "blink",
            AnimationType::Wave => "wave",
            AnimationType::Snow => "snow",
            AnimationType::Alternate => "alternate",
            AnimationType::Spiral => "spiral",
            AnimationType::BottomUp => match deployment {
                Deployment::RaspberryPi => "bottom-up",
                Deployment::LocalDev => "buttom-up",
            },
            AnimationType::TopDown => "top-down",
        }
    }
}

/// Within one deployment, distinct animations travel under distinct names.
pub proof fn lemma_animation_wire_names_distinct(
    a: AnimationType,
    b: AnimationType,
    deployment: Deployment,
)
    requires
        a != b,
    ensures
        a.spec_wire_name(deployment) != b.spec_wire_name(deployment),
{
    reveal_strlit("blink");
    reveal_strlit("wave");
    reveal_strlit("snow");
    reveal_strlit("alternate");
    reveal_strlit("spiral");
    reveal_strlit("bottom-up");
    reveal_strlit("buttom-up");
    reveal_strlit("top-down");
    let (na, nb) = (a.spec_wire_name(deployment), b.spec_wire_name(deployment));
    // Names of equal length already differ in their first letter.
    assert(na.len() != nb.len() || na[0] != nb[0]);
}

/// Every animation appears in the list exactly once, at its own id.
pub proof fn lemma_animation_list_is_a_bijection(idx: int, kind: AnimationType)
    ensures
        0 <= kind.spec_index() < NUM_ANIMATIONS,
        spec_animation_at(kind.spec_index()) == kind,
        0 <= idx < NUM_ANIMATIONS ==> spec_animation_at(idx).spec_index() == idx,
{
}

/// The frames of every animation but the spiral, which is computed.
pub open spec fn spec_table_frames(deployment: Deployment, kind: AnimationType) -> Seq<Seq<RgbState>> {
    match kind {
        AnimationType::Blink => seq![
            seq![RgbState::White, RgbState::Red, RgbState::Green, RgbState::Blue, RgbState::Yellow, RgbState::Magenta],
            seq![RgbState::Off, RgbState::Off, RgbState::Off, RgbState::Off, RgbState::Off, RgbState::Off],
            seq![RgbState::Ciel, RgbState::Magenta, RgbState::Yellow, RgbState::Blue, RgbState::Green, RgbState::Red],
        ],
        AnimationType::Wave => seq![
            seq![RgbState::Yellow, RgbState::Red, RgbState::Magenta, RgbState::Blue, RgbState::Ciel, RgbState::Green],
            seq![RgbState::Green, RgbState::Yellow, RgbState::Red, RgbState::Magenta, RgbState::Blue, RgbState::Ciel],
            seq![RgbState::Ciel, RgbState::Green, RgbState::Yellow, RgbState::Red, RgbState::Magenta, RgbState::Blue],
            seq![RgbState::Blue, RgbState::Ciel, RgbState::Green, RgbState::Yellow, RgbState::Red, RgbState::Magenta],
        ],
        AnimationType::Snow => match deployment {
            Deployment::RaspberryPi => seq![
                seq![RgbState::Blue, RgbState::Blue, RgbState::Blue, RgbState::Blue, RgbState::Blue, RgbState::Blue],
                seq![RgbState::White, RgbState::Blue, RgbState::Blue, RgbState::Blue, RgbState::Blue, RgbState::Blue],
                seq![RgbState::Blue, RgbState::White, RgbState::White, RgbState::Blue, RgbState::Blue, RgbState::Blue],
                seq![RgbState::Blue, RgbState::Blue, RgbState::Blue, RgbState::White, RgbState::White, RgbState::White],
            ],
            Deployment::LocalDev => seq![
                seq![RgbState::Ciel, RgbState::Blue, RgbState::Ciel, RgbState::Blue, RgbState::Ciel, RgbState::Blue],
                seq![RgbState::White, RgbState::Ciel, RgbState::Blue, RgbState::Ciel, RgbState::White, RgbState::Ciel],
                seq![RgbState::Ciel, RgbState::White, RgbState::Ciel, RgbState::White, RgbState::Blue, RgbState::White],
            ],
        },
        AnimationType::Alternate => seq![
            seq![RgbState::Magenta, RgbState::Yellow, RgbState::Magenta, RgbState::Yellow, RgbState::Magenta, RgbState::Yellow],
            seq![RgbState::Yellow, RgbState::Magenta, RgbState::Yellow, RgbState::Magenta, RgbState::Yellow, RgbState::Magenta],
            seq![RgbState::Red, RgbState::Ciel, RgbState::Red, RgbState::Ciel, RgbState::Red, RgbState::Ciel],
            seq![RgbState::Ciel, RgbState::Red, RgbState::Ciel, RgbState::Red, RgbState::Ciel, RgbState::Red],
        ],
        AnimationType::BottomUp => seq![
            seq![RgbState::Off, RgbState::Off, RgbState::Off, RgbState::Off, RgbState::Off, RgbState::Off],
            seq![RgbState::Off, RgbState::Off, RgbState::Off, RgbState::Blue, RgbState::Green, RgbState::Ciel],
            seq![RgbState::Off, RgbState::Magenta, RgbState::Magenta, RgbState::Blue, RgbState::Green, RgbState::Ciel],
            seq![RgbState::Yellow, RgbState::Magenta, RgbState::Magenta, RgbState::Blue, RgbState::Green, RgbState::Ciel],
        ],
        AnimationType::TopDown => seq![
            seq![RgbState::Off, RgbState::Off, RgbState::Off, RgbState::Off, RgbState::Off, RgbState::Off],
            seq![RgbState::Red, RgbState::Off, RgbState::Off, RgbState::Off, RgbState::Off, RgbState::Off],
            seq![RgbState::Magenta, RgbState::Red, RgbState::Red, RgbState::Off, RgbState::Off, RgbState::Off],
            seq![RgbState::Ciel, RgbState::Magenta, RgbState::Magenta, RgbState::Red, RgbState::Red, RgbState::Red],
        ],
        AnimationType::Spiral => seq![],
    }
}

/// The frames of every animation but the spiral, which is computed.
pub fn table_frames(deployment: Deployment, kind: AnimationType) -> (frames: Vec<[RgbState; 6]>)
    ensures
        frames@.len() == spec_table_frames(deployment, kind).len(),
        forall|k: int|
            0 <= k < frames@.len() ==> #[trigger] frames@[k]@ == spec_table_frames(deployment, kind)[k],
{
    match kind {
        AnimationType::Blink => vec![
            [RgbState::White, RgbState::Red, RgbState::Green, RgbState::Blue, RgbState::Yellow, RgbState::Magenta],
            [RgbState::Off, RgbState::Off, RgbState::Off, RgbState::Off, RgbState::Off, RgbState::Off],
            [RgbState::Ciel, RgbState::Magenta, RgbState::Yellow, RgbState::Blue, RgbState::Green, RgbState::Red],
        ],
        AnimationType::Wave => vec![
            [RgbState::Yellow, RgbState::Red, RgbState::Magenta, RgbState::Blue, RgbState::Ciel, RgbState::Green],
            [RgbState::Green, RgbState::Yellow, RgbState::Red, RgbState::Magenta, RgbState::Blue, RgbState::Ciel],
            [RgbState::Ciel, RgbState::Green, RgbState::Yellow, RgbState::Red, RgbState::Magenta, RgbState::Blue],
            [RgbState::Blue, RgbState::Ciel, RgbState::Green, RgbState::Yellow, RgbState::Red, RgbState::Magenta],
        ],
        AnimationType::Snow => match deployment {
            Deployment::RaspberryPi => vec![
                [RgbState::Blue, RgbState::Blue, RgbState::Blue, RgbState::Blue, RgbState::Blue, RgbState::Blue],
                [RgbState::White, RgbState::Blue, RgbState::Blue, RgbState::Blue, RgbState::Blue, RgbState::Blue],
                [RgbState::Blue, RgbState::White, RgbState::White, RgbState::Blue, RgbState::Blue, RgbState::Blue],
                [RgbState::Blue, RgbState::Blue, RgbState::Blue, RgbState::White, RgbState::White, RgbState::White],
            ],
            Deployment::LocalDev => vec![
                [RgbState::Ciel, RgbState::Blue, RgbState::Ciel, RgbState::Blue, RgbState::Ciel, RgbState::Blue],
                [RgbState::White, RgbState::Ciel, RgbState::Blue, RgbState::Ciel, RgbState::White, RgbState::Ciel],
                [RgbState::Ciel, RgbState::White, RgbState::Ciel, RgbState::White, RgbState::Blue, RgbState::White],
            ],
        },
        AnimationType::Alternate => vec![
            [RgbState::Magenta, RgbState::Yellow, RgbState::Magenta, RgbState::Yellow, RgbState::Magenta, RgbState::Yellow],
            [RgbState::Yellow, RgbState::Magenta, RgbState::Yellow, RgbState::Magenta, RgbState::Yellow, RgbState::Magenta],
            [RgbState::Red, RgbState::Ciel, RgbState::Red, RgbState::Ciel, RgbState::Red, RgbState::Ciel],
            [RgbState::Ciel, RgbState::Red, RgbState::Ciel, RgbState::Red, RgbState::Ciel, RgbState::Red],
        ],
        AnimationType::BottomUp => vec![
            [RgbState::Off, RgbState::Off, RgbState::Off, RgbState::Off, RgbState::Off, RgbState::Off],
            [RgbState::Off, RgbState::Off, RgbState::Off, RgbState::Blue, RgbState::Green, RgbState::Ciel],
            [RgbState::Off, RgbState::Magenta, RgbState::Magenta, RgbState::Blue, RgbState::Green, RgbState::Ciel],
            [RgbState::Yellow, RgbState::Magenta, RgbState::Magenta, RgbState::Blue, RgbState::Green, RgbState::Ciel],
        ],
        AnimationType::TopDown => vec![
            [RgbState::Off, RgbState::Off, RgbState::Off, RgbState::Off, RgbState::Off, RgbState::Off],
            [RgbState::Red, RgbState::Off, RgbState::Off, RgbState::Off, RgbState::Off, RgbState::Off],
            [RgbState::Magenta, RgbState::Red, RgbState::Red, RgbState::Off, RgbState::Off, RgbState::Off],
            [RgbState::Ciel, RgbState::Magenta, RgbState::Magenta, RgbState::Red, RgbState::Red, RgbState::Red],
        ],
        AnimationType::Spiral => Vec::new(),
    }
}

/// The order in which the spiral visits the RGB LEDs, going round the tree.
pub open spec fn spec_spiral_path() -> Seq<int> {
    seq![0, 2, 5, 4, 3, 1]
}

/// The colours of the spiral's rounds, one round per colour.
pub open spec fn spec_spiral_colors() -> Seq<RgbState> {
    seq![RgbState::Magenta, RgbState::Yellow, RgbState::Ciel, RgbState::Red]
}

/// Frame `step` of the spiral: in round `step / 6` one LED, the one at
/// position `step % 6` of the path, shows the round's colour, the rest are
/// off.
pub open spec fn spec_spiral_frame(step: int) -> Seq<RgbState> {
    Seq::new(
        NUM_RGB_LEDS as nat,
        |i: int|
            if i == spec_spiral_path()[step % 6] {
                spec_spiral_colors()[step / 6]
            } else {
                RgbState::Off
            },
    )
}

/// Number of frames of an animation.
pub open spec fn spec_frame_count(deployment: Deployment, kind: AnimationType) -> nat {
    match kind {
        AnimationType::Spiral => 24,
        _ => spec_table_frames(deployment, kind).len(),
    }
}

/// Frame `k` of an animation: the colours of the six RGB LEDs, by index.
pub open spec fn spec_frame(deployment: Deployment, kind: AnimationType, k: int) -> Seq<RgbState> {
    match kind {
        AnimationType::Spiral => spec_spiral_frame(k),
        _ => spec_table_frames(deployment, kind)[k],
    }
}

/// How long each frame of an animation stays up, in milliseconds.
pub open spec fn spec_frame_delay_ms(deployment: Deployment, kind: AnimationType) -> u64 {
    match deployment {
        Deployment::RaspberryPi => 1000,
        Deployment::LocalDev => match kind {
            AnimationType::Wave => 800,
            AnimationType::Spiral => 300,
            _ => 1000,
        },
    }
}

/// The animation that must still be selected after each frame for a
/// running animation to go on. On the Pi it is the running animation
/// itself; the local development build checks the wave and the snow
/// against the blink.
pub open spec fn spec_continues_while(deployment: Deployment, kind: AnimationType) -> AnimationType {
    match deployment {
        Deployment::RaspberryPi => kind,
        Deployment::LocalDev => match kind {
            AnimationType::Wave | AnimationType::Snow => AnimationType::Blink,
            _ => kind,
        },
    }
}

/// Frame `step` of the spiral.
pub fn spiral_frame(step: usize) -> (frame: [RgbState; 6])
    requires
        step < 24,
    ensures
        frame@ == spec_spiral_frame(step as int),
{
    let path: [usize; 6] = [0, 2, 5, 4, 3, 1];
    let colors = [RgbState::Magenta, RgbState::Yellow, RgbState::Ciel, RgbState::Red];
    let active_idx = path[step % 6];
    let color = colors[step / 6];
    assert(active_idx == spec_spiral_path()[(step % 6) as int]);
    assert(color == spec_spiral_colors()[(step / 6) as int]);
    let mut frame = [
        RgbState::Off,
        RgbState::Off,
        RgbState::Off,
        RgbState::Off,
        RgbState::Off,
        RgbState::Off,
    ];
    for idx in 0..6
        invariant
            frame@.len() == 6,
            active_idx == spec_spiral_path()[(step % 6) as int],
            color == spec_spiral_colors()[(step / 6) as int],
            forall|i: int|
                0 <= i < idx ==> #[trigger] frame@[i] == spec_spiral_frame(step as int)[i],
    {
        let led_state = if idx == active_idx {
            color
        } else {
            RgbState::Off
        };
        frame[idx] = led_state;
    }
    assert(frame@ =~= spec_spiral_frame(step as int));
    frame
}

/// Number of frames of an animation.
pub fn frame_count(deployment: Deployment, kind: AnimationType) -> (n: usize)
    ensures
        n == spec_frame_count(deployment, kind),
{
    match kind {
        AnimationType::Spiral => 24,
        _ => table_frames(deployment, kind).len(),
    }
}

/// Frame `k` of an animation.
pub fn animation_frame(deployment: Deployment, kind: AnimationType, k: usize) -> (frame: [RgbState; 6])
    requires
        k < spec_frame_count(deployment, kind),
    ensures
        frame@ == spec_frame(deployment, kind, k as int),
{
    match kind {
        AnimationType::Spiral => spiral_frame(k),
        _ => {
            let frames = table_frames(deployment, kind);
            frames[k]
        },
    }
}

/// How long each frame of an animation stays up, in milliseconds.
pub fn frame_delay_ms(deployment: Deployment, kind: AnimationType) -> (ms: u64)
    ensures
        ms == spec_frame_delay_ms(deployment, kind),
{
    match deployment {
        Deployment::RaspberryPi => 1000,
        Deployment::LocalDev => match kind {
            AnimationType::Wave => 800,
            AnimationType::Spiral => 300,
            _ => 1000,
        },
    }
}

/// The animation that must still be selected after each frame for `kind`
/// to go on.
pub fn continues_while(deployment: Deployment, kind: AnimationType) -> (guard: AnimationType)
    ensures
        guard == spec_continues_while(deployment, kind),
{
    match deployment {
        Deployment::RaspberryPi => kind,
        Deployment::LocalDev => match kind {
            AnimationType::Wave | AnimationType::Snow => AnimationType::Blink,
            _ => kind,
        },
    }
}

/// Each frame of the spiral lights exactly one LED, the one at the current
/// position of the path, in the current round's colour.
pub proof fn lemma_spiral_lights_one_led(step: int, i: int)
    requires
        0 <= step < 24,
        0 <= i < NUM_RGB_LEDS,
    ensures
        spec_spiral_frame(step)[i] != RgbState::Off <==> i == spec_spiral_path()[step % 6],
        i == spec_spiral_path()[step % 6] ==> spec_spiral_frame(step)[i] == spec_spiral_colors()[step
            / 6],
{
}

/// The spiral's path goes round the whole tree: every RGB LED comes up at
/// exactly one position of it, so each round lights every LED once.
pub proof fn lemma_spiral_path_visits_every_led(i: int)
    requires
        0 <= i < NUM_RGB_LEDS,
    ensures
        exists|p: int| 0 <= p < 6 && spec_spiral_path()[p] == i,
        forall|p: int, q: int|
            0 <= p < 6 && 0 <= q < 6 && spec_spiral_path()[p] == i && spec_spiral_path()[q] == i
                ==> p == q,
{
    let path = spec_spiral_path();
    assert(path[0] == 0 && path[1] == 2 && path[2] == 5 && path[3] == 4 && path[4] == 3 && path[5]
        == 1);
    if i == 0 {
        assert(path[0] == i);
    } else if i == 1 {
        assert(path[5] == i);
    } else if i == 2 {
        assert(path[1] == i);
    } else if i == 3 {
        assert(path[4] == i);
    } else if i == 4 {
        assert(path[3] == i);
    } else {
        assert(path[2] == i);
    }
}

/// The frames of Blink on RaspberryPi, one by one.
pub proof fn lemma_frames_blink_pi()
    ensures
        spec_frame_count(Deployment::RaspberryPi, AnimationType::Blink) == 3,
        spec_frame(Deployment::RaspberryPi, AnimationType::Blink, 0) == seq![RgbState::White, RgbState::Red, RgbState::Green, RgbState::Blue, RgbState::Yellow, RgbState::Magenta],
        spec_frame(Deployment::RaspberryPi, AnimationType::Blink, 1) == seq![RgbState::Off, RgbState::Off, RgbState::Off, RgbState::Off, RgbState::Off, RgbState::Off],
        spec_frame(Deployment::RaspberryPi, AnimationType::Blink, 2) == seq![RgbState::Ciel, RgbState::Magenta, RgbState::Yellow, RgbState::Blue, RgbState::Green, RgbState::Red],
{
}

/// The frames of Blink on LocalDev, one by one.
pub proof fn lemma_frames_blink_local()
    ensures
        spec_frame_count(Deployment::LocalDev, AnimationType::Blink) == 3,
        spec_frame(Deployment::LocalDev, AnimationType::Blink, 0) == seq![RgbState::White, RgbState::Red, RgbState::Green, RgbState::Blue, RgbState::Yellow, RgbState::Magenta],
        spec_frame(Deployment::LocalDev, AnimationType::Blink, 1) == seq![RgbState::Off, RgbState::Off, RgbState::Off, RgbState::Off, RgbState::Off, RgbState::Off],
        spec_frame(Deployment::LocalDev, AnimationType::Blink, 2) == seq![RgbState::Ciel, RgbState::Magenta, RgbState::Yellow, RgbState::Blue, RgbState::Green, RgbState::Red],
{
}

/// The frames of Wave on RaspberryPi, one by one.
pub proof fn lemma_frames_wave_pi()
    ensures
        spec_frame_count(Deployment::RaspberryPi, AnimationType::Wave) == 4,
        spec_frame(Deployment::RaspberryPi, AnimationType::Wave, 0) == seq![RgbState::Yellow, RgbState::Red, RgbState::Magenta, RgbState::Blue, RgbState::Ciel, RgbState::Green],
        spec_frame(Deployment::RaspberryPi, AnimationType::Wave, 1) == seq![RgbState::Green, RgbState::Yellow, RgbState::Red, RgbState::Magenta, RgbState::Blue, RgbState::Ciel],
        spec_frame(Deployment::RaspberryPi, AnimationType::Wave, 2) == seq![RgbState::Ciel, RgbState::Green, RgbState::Yellow, RgbState::Red, RgbState::Magenta, RgbState::Blue],
        spec_frame(Deployment::RaspberryPi, AnimationType::Wave, 3) == seq![RgbState::Blue, RgbState::Ciel, RgbState::Green, RgbState::Yellow, RgbState::Red, RgbState::Magenta],
{
}

/// The frames of Wave on LocalDev, one by one.
pub proof fn lemma_frames_wave_local()
    ensures
        spec_frame_count(Deployment::LocalDev, AnimationType::Wave) == 4,
        spec_frame(Deployment::LocalDev, AnimationType::Wave, 0) == seq![RgbState::Yellow, RgbState::Red, RgbState::Magenta, RgbState::Blue, RgbState::Ciel, RgbState::Green],
        spec_frame(Deployment::LocalDev, AnimationType::Wave, 1) == seq![RgbState::Green, RgbState::Yellow, RgbState::Red, RgbState::Magenta, RgbState::Blue, RgbState::Ciel],
        spec_frame(Deployment::LocalDev, AnimationType::Wave, 2) == seq![RgbState::Ciel, RgbState::Green, RgbState::Yellow, RgbState::Red, RgbState::Magenta, RgbState::Blue],
        spec_frame(Deployment::LocalDev, AnimationType::Wave, 3) == seq![RgbState::Blue, RgbState::Ciel, RgbState::Green, RgbState::Yellow, RgbState::Red, RgbState::Magenta],
{
}

/// The frames of Snow on RaspberryPi, one by one.
pub proof fn lemma_frames_snow_pi()
    ensures
        spec_frame_count(Deployment::RaspberryPi, AnimationType::Snow) == 4,
        spec_frame(Deployment::RaspberryPi, AnimationType::Snow, 0) == seq![RgbState::Blue, RgbState::Blue, RgbState::Blue, RgbState::Blue, RgbState::Blue, RgbState::Blue],
        spec_frame(Deployment::RaspberryPi, AnimationType::Snow, 1) == seq![RgbState::White, RgbState::Blue, RgbState::Blue, RgbState::Blue, RgbState::Blue, RgbState::Blue],
        spec_frame(Deployment::RaspberryPi, AnimationType::Snow, 2) == seq![RgbState::Blue, RgbState::White, RgbState::White, RgbState::Blue, RgbState::Blue, RgbState::Blue],
        spec_frame(Deployment::RaspberryPi, AnimationType::Snow, 3) == seq![RgbState::Blue, RgbState::Blue, RgbState::Blue, RgbState::White, RgbState::White, RgbState::White],
{
}

/// The frames of Snow on LocalDev, one by one.
pub proof fn lemma_frames_snow_local()
    ensures
        spec_frame_count(Deployment::LocalDev, AnimationType::Snow) == 3,
        spec_frame(Deployment::LocalDev, AnimationType::Snow, 0) == seq![RgbState::Ciel, RgbState::Blue, RgbState::Ciel, RgbState::Blue, RgbState::Ciel, RgbState::Blue],
        spec_frame(Deployment::LocalDev, AnimationType::Snow, 1) == seq![RgbState::White, RgbState::Ciel, RgbState::Blue, RgbState::Ciel, RgbState::White, RgbState::Ciel],
        spec_frame(Deployment::LocalDev, AnimationType::Snow, 2) == seq![RgbState::Ciel, RgbState::White, RgbState::Ciel, RgbState::White, RgbState::Blue, RgbState::White],
{
}

/// The frames of Alternate on RaspberryPi, one by one.
pub proof fn lemma_frames_alternate_pi()
    ensures
        spec_frame_count(Deployment::RaspberryPi, AnimationType::Alternate) == 4,
        spec_frame(Deployment::RaspberryPi, AnimationType::Alternate, 0) == seq![RgbState::Magenta, RgbState::Yellow, RgbState::Magenta, RgbState::Yellow, RgbState::Magenta, RgbState::Yellow],
        spec_frame(Deployment::RaspberryPi, AnimationType::Alternate, 1) == seq![RgbState::Yellow, RgbState::Magenta, RgbState::Yellow, RgbState::Magenta, RgbState::Yellow, RgbState::Magenta],
        spec_frame(Deployment::RaspberryPi, AnimationType::Alternate, 2) == seq![RgbState::Red, RgbState::Ciel, RgbState::Red, RgbState::Ciel, RgbState::Red, RgbState::Ciel],
        spec_frame(Deployment::RaspberryPi, AnimationType::Alternate, 3) == seq![RgbState::Ciel, RgbState::Red, RgbState::Ciel, RgbState::Red, RgbState::Ciel, RgbState::Red],
{
}

/// The frames of Alternate on LocalDev, one by one.
pub proof fn lemma_frames_alternate_local()
    ensures
        spec_frame_count(Deployment::LocalDev, AnimationType::Alternate) == 4,
        spec_frame(Deployment::LocalDev, AnimationType::Alternate, 0) == seq![RgbState::Magenta, RgbState::Yellow, RgbState::Magenta, RgbState::Yellow, RgbState::Magenta, RgbState::Yellow],
        spec_frame(Deployment::LocalDev, AnimationType::Alternate, 1) == seq![RgbState::Yellow, RgbState::Magenta, RgbState::Yellow, RgbState::Magenta, RgbState::Yellow, RgbState::Magenta],
        spec_frame(Deployment::LocalDev, AnimationType::Alternate, 2) == seq![RgbState::Red, RgbState::Ciel, RgbState::Red, RgbState::Ciel, RgbState::Red, RgbState::Ciel],
        spec_frame(Deployment::LocalDev, AnimationType::Alternate, 3) == seq![RgbState::Ciel, RgbState::Red, RgbState::Ciel, RgbState::Red, RgbState::Ciel, RgbState::Red],
{
}

/// The frames of BottomUp on RaspberryPi, one by one.
pub proof fn lemma_frames_bottomup_pi()
    ensures
        spec_frame_count(Deployment::RaspberryPi, AnimationType::BottomUp) == 4,
        spec_frame(Deployment::RaspberryPi, AnimationType::BottomUp, 0) == seq![RgbState::Off, RgbState::Off, RgbState::Off, RgbState::Off, RgbState::Off, RgbState::Off],
        spec_frame(Deployment::RaspberryPi, AnimationType::BottomUp, 1) == seq![RgbState::Off, RgbState::Off, RgbState::Off, RgbState::Blue, RgbState::Green, RgbState::Ciel],
        spec_frame(Deployment::RaspberryPi, AnimationType::BottomUp, 2) == seq![RgbState::Off, RgbState::Magenta, RgbState::Magenta, RgbState::Blue, RgbState::Green, RgbState::Ciel],
        spec_frame(Deployment::RaspberryPi, AnimationType::BottomUp, 3) == seq![RgbState::Yellow, RgbState::Magenta, RgbState::Magenta, RgbState::Blue, RgbState::Green, RgbState::Ciel],
{
}

/// The frames of BottomUp on LocalDev, one by one.
pub proof fn lemma_frames_bottomup_local()
    ensures
        spec_frame_count(Deployment::LocalDev, AnimationType::BottomUp) == 4,
        spec_frame(Deployment::LocalDev, AnimationType::BottomUp, 0) == seq![RgbState::Off, RgbState::Off, RgbState::Off, RgbState::Off, RgbState::Off, RgbState::Off],
        spec_frame(Deployment::LocalDev, AnimationType::BottomUp, 1) == seq![RgbState::Off, RgbState::Off, RgbState::Off, RgbState::Blue, RgbState::Green, RgbState::Ciel],
        spec_frame(Deployment::LocalDev, AnimationType::BottomUp, 2) == seq![RgbState::Off, RgbState::Magenta, RgbState::Magenta, RgbState::Blue, RgbState::Green, RgbState::Ciel],
        spec_frame(Deployment::LocalDev, AnimationType::BottomUp, 3) == seq![RgbState::Yellow, RgbState::Magenta, RgbState::Magenta, RgbState::Blue, RgbState::Green, RgbState::Ciel],
{
}

/// The frames of TopDown on RaspberryPi, one by one.
pub proof fn lemma_frames_topdown_pi()
    ensures
        spec_frame_count(Deployment::RaspberryPi, AnimationType::TopDown) == 4,
        spec_frame(Deployment::RaspberryPi, AnimationType::TopDown, 0) == seq![RgbState::Off, RgbState::Off, RgbState::Off, RgbState::Off, RgbState::Off, RgbState::Off],
        spec_frame(Deployment::RaspberryPi, AnimationType::TopDown, 1) == seq![RgbState::Red, RgbState::Off, RgbState::Off, RgbState::Off, RgbState::Off, RgbState::Off],
        spec_frame(Deployment::RaspberryPi, AnimationType::TopDown, 2) == seq![RgbState::Magenta, RgbState::Red, RgbState::Red, RgbState::Off, RgbState::Off, RgbState::Off],
        spec_frame(Deployment::RaspberryPi, AnimationType::TopDown, 3) == seq![RgbState::Ciel, RgbState::Magenta, RgbState::Magenta, RgbState::Red, RgbState::Red, RgbState::Red],
{
}

/// The frames of TopDown on LocalDev, one by one.
pub proof fn lemma_frames_topdown_local()
    ensures
        spec_frame_count(Deployment::LocalDev, AnimationType::TopDown) == 4,
        spec_frame(Deployment::LocalDev, AnimationType::TopDown, 0) == seq![RgbState::Off, RgbState::Off, RgbState::Off, RgbState::Off, RgbState::Off, RgbState::Off],
        spec_frame(Deployment::LocalDev, AnimationType::TopDown, 1) == seq![RgbState::Red, RgbState::Off, RgbState::Off, RgbState::Off, RgbState::Off, RgbState::Off],
        spec_frame(Deployment::LocalDev, AnimationType::TopDown, 2) == seq![RgbState::Magenta, RgbState::Red, RgbState::Red, RgbState::Off, RgbState::Off, RgbState::Off],
        spec_frame(Deployment::LocalDev, AnimationType::TopDown, 3) == seq![RgbState::Ciel, RgbState::Magenta, RgbState::Magenta, RgbState::Red, RgbState::Red, RgbState::Red],
{
}

/// The alternate animation alternates: every LED changes colour from each
/// frame to the next, neighbouring LEDs never share a colour, and the
/// second frame swaps magenta and yellow of the first, the fourth swaps red
/// and ciel of the third.
pub proof fn lemma_alternate_alternates(deployment: Deployment, k: int, i: int)
    requires
        0 <= i < NUM_RGB_LEDS,
    ensures
        0 <= k < 3 ==> spec_frame(deployment, AnimationType::Alternate, k + 1)[i] != spec_frame(
            deployment,
            AnimationType::Alternate,
            k,
        )[i],
        0 <= k < 4 && i + 1 < NUM_RGB_LEDS ==> spec_frame(deployment, AnimationType::Alternate, k)[i]
            != spec_frame(deployment, AnimationType::Alternate, k)[i + 1],
        spec_frame(deployment, AnimationType::Alternate, 1)[i] == (if spec_frame(
            deployment,
            AnimationType::Alternate,
            0,
        )[i] == RgbState::Magenta {
            RgbState::Yellow
        } else {
            RgbState::Magenta
        }),
        spec_frame(deployment, AnimationType::Alternate, 3)[i] == (if spec_frame(
            deployment,
            AnimationType::Alternate,
            2,
        )[i] == RgbState::Red {
            RgbState::Ciel
        } else {
            RgbState::Red
        }),
{
}

/// The wave moves one LED along per frame: each LED takes the colour its
/// left neighbour had in the frame before, and the first LED the colour
/// the last had.
pub proof fn lemma_wave_moves_along(deployment: Deployment, k: int, i: int)
    requires
        0 <= k < 3,
        0 <= i < NUM_RGB_LEDS - 1,
    ensures
        spec_frame(deployment, AnimationType::Wave, k + 1)[i + 1] == spec_frame(
            deployment,
            AnimationType::Wave,
            k,
        )[i],
        spec_frame(deployment, AnimationType::Wave, k + 1)[0] == spec_frame(
            deployment,
            AnimationType::Wave,
            k,
        )[5],
{
}

/// Frame `step` of the spiral lights the LED at position `step % 6` of the
/// round 0, 2, 5, 4, 3, 1, in magenta, yellow, ciel and red for the four
/// rounds, and no other LED.
pub proof fn lemma_spiral_frames(deployment: Deployment, step: int, i: int)
    requires
        0 <= step < 24,
        0 <= i < NUM_RGB_LEDS,
    ensures
        spec_frame_count(deployment, AnimationType::Spiral) == 24,
        spec_frame(deployment, AnimationType::Spiral, step).len() == 6,
        spec_frame(deployment, AnimationType::Spiral, step)[i] == (if i == (if step % 6 == 0 {
            0int
        } else if step % 6 == 1 {
            2
        } else if step % 6 == 2 {
            5
        } else if step % 6 == 3 {
            4
        } else if step % 6 == 4 {
            3
        } else {
            1
        }) {
            if step < 6 {
                RgbState::Magenta
            } else if step < 12 {
                RgbState::Yellow
            } else if step < 18 {
                RgbState::Ciel
            } else {
                RgbState::Red
            }
        } else {
            RgbState::Off
        }),
{
}

/// The animation list by id: blink, wave, snow, alternate, spiral,
/// bottom-up, top-down; and their JSON names.
pub proof fn lemma_animation_list_and_names()
    ensures
        spec_animation_at(0) == AnimationType::Blink,
        spec_animation_at(1) == AnimationType::Wave,
        spec_animation_at(2) == AnimationType::Snow,
        spec_animation_at(3) == AnimationType::Alternate,
        spec_animation_at(4) == AnimationType::Spiral,
        spec_animation_at(5) == AnimationType::BottomUp,
        spec_animation_at(6) == AnimationType::TopDown,
        AnimationType::Blink.spec_wire_name(Deployment::RaspberryPi) == "blink"@,
        AnimationType::Wave.spec_wire_name(Deployment::RaspberryPi) == "wave"@,
        AnimationType::Snow.spec_wire_name(Deployment::RaspberryPi) == "snow"@,
        AnimationType::Alternate.spec_wire_name(Deployment::RaspberryPi) == "alternate"@,
        AnimationType::Spiral.spec_wire_name(Deployment::RaspberryPi) == "spiral"@,
        AnimationType::BottomUp.spec_wire_name(Deployment::RaspberryPi) == "bottom-up"@,
        AnimationType::BottomUp.spec_wire_name(Deployment::LocalDev) == "buttom-up"@,
        AnimationType::TopDown.spec_wire_name(Deployment::RaspberryPi) == "top-down"@,
        forall|k: AnimationType| k != AnimationType::BottomUp ==> #[trigger] k.spec_wire_name(
            Deployment::LocalDev,
        ) == k.spec_wire_name(Deployment::RaspberryPi),
{
}

/// How long frames stay up and which selection keeps an animation going:
/// on the Pi every frame stays a second and an animation goes on while it
/// is itself selected; the local build shows wave frames for 0.8 s and
/// spiral frames for 0.3 s, and lets the wave and the snow go on while the
/// blink is selected.
pub proof fn lemma_frame_times_and_guards(kind: AnimationType)
    ensures
        spec_frame_delay_ms(Deployment::RaspberryPi, kind) == 1000,
        spec_continues_while(Deployment::RaspberryPi, kind) == kind,
        spec_frame_delay_ms(Deployment::LocalDev, kind) == (if kind == AnimationType::Wave {
            800u64
        } else if kind == AnimationType::Spiral {
            300u64
        } else {
            1000u64
        }),
        spec_continues_while(Deployment::LocalDev, kind) == (if kind == AnimationType::Wave || kind
            == AnimationType::Snow {
            AnimationType::Blink
        } else {
            kind
        }),
{
}

} // verus!
