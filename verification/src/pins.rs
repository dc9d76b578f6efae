use vstd::prelude::*;
use crate::led::{NonRgbState, RgbState, NUM_GPIO_PINS, NUM_NON_RGB_LEDS, NUM_RGB_LEDS};

verus! {

/// A level to drive one GPIO pin to. The LEDs are wired with a common
/// cathode, so a high pin lights its LED or colour channel.
#[derive(Clone, Copy, Debug, PartialEq, Eq, Structural)]
pub struct PinLevel {
    pub pin: u8,
    pub high: bool,
}

/// The first of the three pins (red, green, blue) of RGB LED `idx`.
pub open spec fn spec_rgb_base_pin(idx: int) -> int {
    3 * idx
}

/// The pin of single-colour LED `idx`; these follow the RGB pins.
pub open spec fn spec_non_rgb_pin(idx: int) -> int {
    3 * NUM_RGB_LEDS + idx
}

/// The pin levels that show `state` on RGB LED `idx`: its red, green and
/// blue pins, in that order, each high when the colour lights that
/// channel. An index past the last RGB LED asks for nothing.
pub open spec fn spec_rgb_led_pin_levels(idx: int, state: RgbState) -> Seq<PinLevel> {
    if 0 <= idx < NUM_RGB_LEDS {
        let (r, g, b) = state.spec_channels();
        let base = spec_rgb_base_pin(idx);
        seq![
            PinLevel { pin: base as u8, high: r },
            PinLevel { pin: (base + 1) as u8, high: g },
            PinLevel { pin: (base + 2) as u8, high: b },
        ]
    } else {
        seq![]
    }
}

/// The pin levels that show `state` on RGB LED `idx`.
pub fn rgb_led_pin_levels(idx: u8, state: RgbState) -> (levels: Vec<PinLevel>)
    ensures
        levels@ == spec_rgb_led_pin_levels(idx as int, state),
        idx >= 6 ==> levels@.len() == 0,
        idx < 6 ==> levels@.len() == 3 && levels@[0] == (PinLevel {
            pin: (3 * idx) as u8,
            high: state.spec_channels().0,
        }) && levels@[1] == (PinLevel { pin: (3 * idx + 1) as u8, high: state.spec_channels().1 })
            && levels@[2] == (PinLevel { pin: (3 * idx + 2) as u8, high: state.spec_channels().2 }),
{
    let mut levels: Vec<PinLevel> = Vec::new();
    if idx >= NUM_RGB_LEDS {
        return levels;
    }
    let (r, g, b) = state.channels();
    let base: u8 = idx * 3;
    levels.push(PinLevel { pin: base, high: r });
    levels.push(PinLevel { pin: base + 1, high: g });
    levels.push(PinLevel { pin: base + 2, high: b });
    levels
}

/// The pin level that shows `state` on single-colour LED `idx`: high when
/// the state is lit. An index past the last such LED asks for nothing.
pub open spec fn spec_non_rgb_led_pin_level(idx: int, state: NonRgbState) -> Option<PinLevel> {
    if 0 <= idx < NUM_NON_RGB_LEDS {
        Some(PinLevel { pin: spec_non_rgb_pin(idx) as u8, high: state.spec_is_lit() })
    } else {
        None
    }
}

/// The pin level that shows `state` on single-colour LED `idx`.
pub fn non_rgb_led_pin_level(idx: u8, state: NonRgbState) -> (level: Option<PinLevel>)
    ensures
        level == spec_non_rgb_led_pin_level(idx as int, state),
{
    if idx >= NUM_NON_RGB_LEDS {
        return None;
    }
    Some(PinLevel { pin: NUM_RGB_LEDS * 3 + idx, high: state.is_lit() })
}

/// Every pin the controller drives, low: the state the pins are put in
/// when the controller starts.
pub fn all_pins_low() -> (levels: Vec<PinLevel>)
    ensures
        levels@.len() == NUM_GPIO_PINS,
        forall|i: int|
            0 <= i < levels@.len() ==> #[trigger] levels@[i] == (PinLevel { pin: i as u8, high: false }),
{
    let mut levels: Vec<PinLevel> = Vec::new();
    for i in 0..NUM_GPIO_PINS
        invariant
            levels@.len() == i,
            forall|j: int| 0 <= j < i ==> #[trigger] levels@[j] == (PinLevel { pin: j as u8, high: false }),
    {
        levels.push(PinLevel { pin: i, high: false });
    }
    levels
}

/// No two LEDs share a pin, and every LED's pins lie among the pins the
/// controller drives: RGB LED `i` owns pins `3i..3i+3`, single-colour LED
/// `j` owns pin `18 + j`.
pub proof fn lemma_pins_are_disjoint(i1: int, i2: int, j1: int, j2: int, k1: int, k2: int)
    requires
        0 <= i1 < NUM_RGB_LEDS,
        0 <= i2 < NUM_RGB_LEDS,
        0 <= j1 < NUM_NON_RGB_LEDS,
        0 <= j2 < NUM_NON_RGB_LEDS,
        0 <= k1 < 3,
        0 <= k2 < 3,
    ensures
        spec_rgb_base_pin(i1) + k1 == spec_rgb_base_pin(i2) + k2 ==> i1 == i2 && k1 == k2,
        spec_rgb_base_pin(i1) + k1 != spec_non_rgb_pin(j1),
        spec_non_rgb_pin(j1) == spec_non_rgb_pin(j2) ==> j1 == j2,
        spec_rgb_base_pin(i1) + k1 < NUM_GPIO_PINS,
        spec_non_rgb_pin(j1) < NUM_GPIO_PINS,
{
}

} // verus!

verus! {

/// Whether channel `channel` (0 red, 1 green, 2 blue) of a colour is lit.
pub open spec fn spec_channel(state: RgbState, channel: int) -> bool {
    let (r, g, b) = state.spec_channels();
    if channel == 0 {
        r
    } else if channel == 1 {
        g
    } else {
        b
    }
}

/// The levels of all eighteen RGB pins that show `leds`, pin by pin: pin
/// `p` carries channel `p % 3` of LED `p / 3`.
pub open spec fn spec_rgb_leds_pin_levels(leds: Seq<RgbState>) -> Seq<PinLevel> {
    Seq::new(
        (3 * NUM_RGB_LEDS) as nat,
        |p: int| PinLevel { pin: p as u8, high: spec_channel(leds[p / 3], p % 3) },
    )
}

/// The levels of all RGB pins that show `leds`: the levels of each LED in
/// turn, as `rgb_led_pin_levels` gives them.
pub fn rgb_leds_pin_levels(leds: &[RgbState; 6]) -> (levels: Vec<PinLevel>)
    ensures
        levels@ == spec_rgb_leds_pin_levels(leds@),
{
    let mut levels: Vec<PinLevel> = Vec::new();
    for idx in 0..NUM_RGB_LEDS
        invariant
            levels@.len() == 3 * idx,
            forall|p: int|
                0 <= p < levels@.len() ==> #[trigger] levels@[p] == spec_rgb_leds_pin_levels(
                    leds@,
                )[p],
    {
        let mut led_levels = rgb_led_pin_levels(idx, leds[idx as usize]);
        assert(led_levels@ == spec_rgb_led_pin_levels(idx as int, leds@[idx as int]));
        let ghost before = levels@;
        levels.append(&mut led_levels);
        assert forall|p: int| 0 <= p < levels@.len() implies #[trigger] levels@[p]
            == spec_rgb_leds_pin_levels(leds@)[p] by {
            if p >= before.len() {
                assert(p / 3 == idx as int);
                assert(p - before.len() == p % 3);
            }
        }
    }
    assert(levels@ =~= spec_rgb_leds_pin_levels(leds@));
    levels
}

} // verus!

verus! {

/// The pins of a whole frame are the pins of each LED in turn: pins
/// `3i..3i+3` of the frame carry what `rgb_led_pin_levels` gives for LED
/// `i` and its colour.
pub proof fn lemma_frame_pins_are_led_pins(leds: Seq<RgbState>, i: int, k: int)
    requires
        leds.len() == NUM_RGB_LEDS,
        0 <= i < NUM_RGB_LEDS,
        0 <= k < 3,
    ensures
        spec_rgb_leds_pin_levels(leds)[3 * i + k] == spec_rgb_led_pin_levels(i, leds[i])[k],
{
    assert((3 * i + k) / 3 == i);
    assert((3 * i + k) % 3 == k);
}

} // verus!

verus! {

/// RGB LED `i` shows colour `c` by driving pin `3i` to the red channel,
/// pin `3i + 1` to the green channel and pin `3i + 2` to the blue channel
/// of `c`, whether one LED is set alone or a whole frame is shown; LED `i`
/// of a frame takes the colour the frame gives it.
pub proof fn lemma_each_pin_carries_its_channel(leds: Seq<RgbState>, i: int, c: RgbState)
    requires
        leds.len() == NUM_RGB_LEDS,
        0 <= i < NUM_RGB_LEDS,
    ensures
        spec_rgb_led_pin_levels(i, c).len() == 3,
        spec_rgb_led_pin_levels(i, c)[0] == (PinLevel { pin: (3 * i) as u8, high: c.spec_channels().0 }),
        spec_rgb_led_pin_levels(i, c)[1] == (PinLevel { pin: (3 * i + 1) as u8, high: c.spec_channels().1 }),
        spec_rgb_led_pin_levels(i, c)[2] == (PinLevel { pin: (3 * i + 2) as u8, high: c.spec_channels().2 }),
        spec_rgb_leds_pin_levels(leds).len() == 18,
        spec_rgb_leds_pin_levels(leds)[3 * i] == (PinLevel {
            pin: (3 * i) as u8,
            high: leds[i].spec_channels().0,
        }),
        spec_rgb_leds_pin_levels(leds)[3 * i + 1] == (PinLevel {
            pin: (3 * i + 1) as u8,
            high: leds[i].spec_channels().1,
        }),
        spec_rgb_leds_pin_levels(leds)[3 * i + 2] == (PinLevel {
            pin: (3 * i + 2) as u8,
            high: leds[i].spec_channels().2,
        }),
{
    assert((3 * i) / 3 == i && (3 * i) % 3 == 0);
    assert((3 * i + 1) / 3 == i && (3 * i + 1) % 3 == 1);
    assert((3 * i + 2) / 3 == i && (3 * i + 2) % 3 == 2);
}

/// Single-colour LED `j` is driven on pin `18 + j`, high exactly when the
/// LED is on or in the lit half of its blink; there is no third such LED.
pub proof fn lemma_non_rgb_led_pin(j: int, s: NonRgbState)
    ensures
        0 <= j < 2 ==> spec_non_rgb_led_pin_level(j, s) == Some(
            PinLevel {
                pin: (18 + j) as u8,
                high: s == NonRgbState::On || s == NonRgbState::BlinkingOn,
            },
        ),
        !(0 <= j < 2) ==> spec_non_rgb_led_pin_level(j, s) is None,
{
}

} // verus!
