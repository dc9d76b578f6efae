use vstd::prelude::*;
use crate::animation::{AnimationType, NUM_ANIMATIONS, animation_at, spec_animation_at};
use crate::led::{
    NonRgbLedRequest, NonRgbRequestState, NonRgbState, RgbState, NUM_NON_RGB_LEDS, NUM_RGB_LEDS,
};
use crate::pins::{
    PinLevel, non_rgb_led_pin_level, rgb_leds_pin_levels, spec_non_rgb_led_pin_level,
    spec_rgb_leds_pin_levels,
};
use crate::text::{decimal, spec_decimal};

verus! {

/// The state the HTTP API reads and changes: the colour of each RGB LED,
/// the state of each single-colour LED, and the id of the animation
/// selected.
pub struct LedController {
    rgb_leds: [RgbState; 6],
    non_rgb_leds: [NonRgbState; 2],
    current_animation_idx: usize,
}

/// The abstract state of a `LedController`.
pub struct ControllerView {
    pub rgb_leds: Seq<RgbState>,
    pub non_rgb_leds: Seq<NonRgbState>,
    pub current_animation_idx: nat,
}

impl ControllerView {
    /// Six RGB LEDs, two single-colour LEDs, and an animation id from the
    /// list.
    pub open spec fn well_formed(self) -> bool {
        &&& self.rgb_leds.len() == NUM_RGB_LEDS
        &&& self.non_rgb_leds.len() == NUM_NON_RGB_LEDS
        &&& self.current_animation_idx < NUM_ANIMATIONS
    }

    /// The animation that follows the selected one, wrapping round after
    /// the last.
    pub open spec fn spec_next_animation(self) -> ControllerView {
        ControllerView {
            current_animation_idx: ((self.current_animation_idx + 1) % (NUM_ANIMATIONS as nat)) as nat,
            ..self
        }
    }

    /// The animation that comes before the selected one, wrapping round
    /// before the first.
    pub open spec fn spec_prev_animation(self) -> ControllerView {
        ControllerView {
            current_animation_idx: if self.current_animation_idx == 0 {
                (NUM_ANIMATIONS - 1) as nat
            } else {
                (self.current_animation_idx - 1) as nat
            },
            ..self
        }
    }

    /// Animation `id` selected, when it is in the list; the state unchanged
    /// otherwise.
    pub open spec fn spec_set_animation(self, id: int) -> ControllerView {
        if 0 <= id < NUM_ANIMATIONS {
            ControllerView { current_animation_idx: id as nat, ..self }
        } else {
            self
        }
    }

    /// A client's request applied to its single-colour LED, when the LED
    /// exists; the state unchanged otherwise.
    pub open spec fn spec_set_non_rgb_led(self, request: NonRgbLedRequest) -> ControllerView {
        if request.id < NUM_NON_RGB_LEDS {
            ControllerView {
                non_rgb_leds: self.non_rgb_leds.update(
                    request.id as int,
                    self.non_rgb_leds[request.id as int].spec_apply(request.state),
                ),
                ..self
            }
        } else {
            self
        }
    }

    /// One tick of the blink loop applied to every single-colour LED.
    pub open spec fn spec_tick(self) -> ControllerView {
        ControllerView {
            non_rgb_leds: Seq::new(self.non_rgb_leds.len(), |i: int| self.non_rgb_leds[i].spec_tick()),
            ..self
        }
    }

    /// The animation selected.
    pub open spec fn spec_current_animation(self) -> AnimationType {
        spec_animation_at(self.current_animation_idx as int)
    }
}

impl View for LedController {
    type V = ControllerView;

    closed spec fn view(&self) -> ControllerView {
        ControllerView {
            rgb_leds: self.rgb_leds@,
            non_rgb_leds: self.non_rgb_leds@,
            current_animation_idx: self.current_animation_idx as nat,
        }
    }
}

/// An animation id that is not in the list.
#[derive(Clone, Copy, Debug, PartialEq, Eq, Structural)]
pub struct InvalidAnimationId {
    pub id: usize,
}

/// A single-colour LED id past the last such LED.
#[derive(Clone, Copy, Debug, PartialEq, Eq, Structural)]
pub struct InvalidNonRgbLedId {
    pub id: u8,
}

/// An RGB LED id past the last RGB LED.
#[derive(Clone, Copy, Debug, PartialEq, Eq, Structural)]
pub struct InvalidRgbLedId {
    pub id: usize,
}

impl InvalidAnimationId {
    /// The text of the error a client receives.
    pub open spec fn spec_message(self) -> Seq<char> {
        "Invalid animation ID='"@ + spec_decimal(self.id as nat) + "'. Expected a value between 0 and "@
            + spec_decimal((NUM_ANIMATIONS - 1) as nat)
    }

    /// The text of the error a client receives.
    pub fn message(&self) -> (m: String)
        ensures
            m@ == self.spec_message(),
    {
        let mut m = String::from_str("Invalid animation ID='");
        m.append(decimal(self.id).as_str());
        m.append("'. Expected a value between 0 and ");
        m.append(decimal(NUM_ANIMATIONS - 1).as_str());
        m
    }
}

impl InvalidNonRgbLedId {
    /// The text of the error a client receives.
    pub open spec fn spec_message(self) -> Seq<char> {
        "Invalid non-RGB LED ID='"@ + spec_decimal(self.id as nat)
            + "'. Expected a value between 0 and "@ + spec_decimal((NUM_NON_RGB_LEDS - 1) as nat)
    }

    /// The text of the error a client receives.
    pub fn message(&self) -> (m: String)
        ensures
            m@ == self.spec_message(),
    {
        let mut m = String::from_str("Invalid non-RGB LED ID='");
        m.append(decimal(self.id as usize).as_str());
        m.append("'. Expected a value between 0 and ");
        m.append(decimal((NUM_NON_RGB_LEDS - 1) as usize).as_str());
        m
    }
}

impl InvalidRgbLedId {
    /// The text of the error a client receives. It is worded as for a
    /// single-colour LED, with the range 1 to 2.
    pub open spec fn spec_message(self) -> Seq<char> {
        "Invalid non-RGB LED ID='"@ + spec_decimal(self.id as nat)
            + "'. Expected a value between 1 and "@ + spec_decimal(NUM_NON_RGB_LEDS as nat)
    }

    /// The text of the error a client receives.
    pub fn message(&self) -> (m: String)
        ensures
            m@ == self.spec_message(),
    {
        let mut m = String::from_str("Invalid non-RGB LED ID='");
        m.append(decimal(self.id).as_str());
        m.append("'. Expected a value between 1 and ");
        m.append(decimal(NUM_NON_RGB_LEDS as usize).as_str());
        m
    }
}

impl LedController {
    #[verifier::type_invariant]
    spec fn inv(self) -> bool {
        self.current_animation_idx < NUM_ANIMATIONS
    }

    /// All LEDs off, the first animation selected.
    pub fn new() -> (c: LedController)
        ensures
            c@.rgb_leds == Seq::new(NUM_RGB_LEDS as nat, |i: int| RgbState::Off),
            c@.non_rgb_leds == Seq::new(NUM_NON_RGB_LEDS as nat, |i: int| NonRgbState::Off),
            c@.current_animation_idx == 0,
            c@.well_formed(),
    {
        let c = LedController {
            rgb_leds: [
                RgbState::Off,
                RgbState::Off,
                RgbState::Off,
                RgbState::Off,
                RgbState::Off,
                RgbState::Off,
            ],
            non_rgb_leds: [NonRgbState::Off, NonRgbState::Off],
            current_animation_idx: 0,
        };
        assert(c@.rgb_leds =~= Seq::new(NUM_RGB_LEDS as nat, |i: int| RgbState::Off));
        assert(c@.non_rgb_leds =~= Seq::new(NUM_NON_RGB_LEDS as nat, |i: int| NonRgbState::Off));
        c
    }

    /// The colours of the RGB LEDs, by index.
    pub fn rgb_leds(&self) -> (leds: [RgbState; 6])
        ensures
            leds@ == self@.rgb_leds,
    {
        self.rgb_leds
    }

    /// The states of the single-colour LEDs, by index.
    pub fn non_rgb_leds(&self) -> (leds: [NonRgbState; 2])
        ensures
            leds@ == self@.non_rgb_leds,
    {
        self.non_rgb_leds
    }

    /// The id of the animation selected.
    pub fn current_animation_idx(&self) -> (idx: usize)
        ensures
            idx == self@.current_animation_idx,
            idx < NUM_ANIMATIONS,
    {
        proof {
            use_type_invariant(self);
        }
        self.current_animation_idx
    }

    /// The animation selected.
    pub fn get_current_animation_type(&self) -> (kind: AnimationType)
        ensures
            kind == self@.spec_current_animation(),
    {
        proof {
            use_type_invariant(self);
        }
        animation_at(self.current_animation_idx).animation_type
    }

    /// Puts a frame of an animation on the RGB LEDs, and gives the levels
    /// of the RGB pins that show it.
    pub fn show_frame(&mut self, frame: &[RgbState; 6]) -> (levels: Vec<PinLevel>)
        ensures
            levels@ == spec_rgb_leds_pin_levels(frame@),
            final(self)@ == (ControllerView { rgb_leds: frame@, ..old(self)@ }),
            final(self)@.well_formed(),
    {
        proof {
            use_type_invariant(&*self);
        }
        self.rgb_leds = *frame;
        rgb_leds_pin_levels(&self.rgb_leds)
    }

    /// Selects animation `id`; fails, changing nothing, when `id` is not in
    /// the list.
    pub fn set_animation(&mut self, id: usize) -> (r: Result<(), InvalidAnimationId>)
        ensures
            r is Ok <==> id < NUM_ANIMATIONS,
            r matches Err(e) ==> e.id == id,
            final(self)@ == old(self)@.spec_set_animation(id as int),
            final(self)@.well_formed(),
    {
        proof {
            use_type_invariant(&*self);
        }
        if id < NUM_ANIMATIONS {
            self.current_animation_idx = id;
            Ok(())
        } else {
            Err(InvalidAnimationId { id })
        }
    }

    /// Selects the animation after the selected one, wrapping round after
    /// the last, and gives its id.
    pub fn next_animation(&mut self) -> (idx: usize)
        ensures
            final(self)@ == old(self)@.spec_next_animation(),
            final(self)@.well_formed(),
            idx == final(self)@.current_animation_idx,
            idx == (old(self)@.current_animation_idx + 1) % 7,
            final(self)@.rgb_leds == old(self)@.rgb_leds,
            final(self)@.non_rgb_leds == old(self)@.non_rgb_leds,
    {
        proof {
            use_type_invariant(&*self);
        }
        self.current_animation_idx = (self.current_animation_idx + 1) % NUM_ANIMATIONS;
        self.current_animation_idx
    }

    /// Selects the animation before the selected one, wrapping round before
    /// the first, and gives its id.
    pub fn prev_animation(&mut self) -> (idx: usize)
        ensures
            final(self)@ == old(self)@.spec_prev_animation(),
            final(self)@.well_formed(),
            idx == final(self)@.current_animation_idx,
            old(self)@.current_animation_idx == 0 ==> idx == 6,
            old(self)@.current_animation_idx > 0 ==> idx == old(self)@.current_animation_idx - 1,
            final(self)@.rgb_leds == old(self)@.rgb_leds,
            final(self)@.non_rgb_leds == old(self)@.non_rgb_leds,
    {
        proof {
            use_type_invariant(&*self);
        }
        self.current_animation_idx = if self.current_animation_idx == 0 {
            NUM_ANIMATIONS - 1
        } else {
            self.current_animation_idx - 1
        };
        self.current_animation_idx
    }

    /// Applies a client's request to a single-colour LED; fails, changing
    /// nothing, when the LED does not exist.
    pub fn set_non_rgb_led(&mut self, request: NonRgbLedRequest) -> (r: Result<(), InvalidNonRgbLedId>)
        ensures
            r is Ok <==> request.id < NUM_NON_RGB_LEDS,
            r matches Err(e) ==> e.id == request.id,
            final(self)@ == old(self)@.spec_set_non_rgb_led(request),
            final(self)@.well_formed(),
    {
        proof {
            use_type_invariant(&*self);
        }
        if request.id >= NUM_NON_RGB_LEDS {
            return Err(InvalidNonRgbLedId { id: request.id });
        }
        let idx = request.id as usize;
        let next = self.non_rgb_leds[idx].apply(request.state);
        self.non_rgb_leds[idx] = next;
        Ok(())
    }

    /// One tick of the blink loop: every single-colour LED moves on by one
    /// tick, and the pin levels that show the new states come back, LED by
    /// LED.
    pub fn tick_non_rgb_leds(&mut self) -> (levels: Vec<PinLevel>)
        ensures
            final(self)@ == old(self)@.spec_tick(),
            final(self)@.well_formed(),
            levels@.len() == NUM_NON_RGB_LEDS,
            forall|i: int|
                0 <= i < NUM_NON_RGB_LEDS ==> Some(#[trigger] levels@[i])
                    == spec_non_rgb_led_pin_level(i, final(self)@.non_rgb_leds[i]),
    {
        proof {
            use_type_invariant(&*self);
        }
        let ghost before = self@;
        let mut levels: Vec<PinLevel> = Vec::new();
        for idx in 0..NUM_NON_RGB_LEDS
            invariant
                self@.rgb_leds == before.rgb_leds,
                self@.current_animation_idx == before.current_animation_idx,
                before.current_animation_idx < NUM_ANIMATIONS,
                self@.non_rgb_leds.len() == NUM_NON_RGB_LEDS,
                before.non_rgb_leds.len() == NUM_NON_RGB_LEDS,
                forall|i: int| 0 <= i < idx ==> self@.non_rgb_leds[i] == before.non_rgb_leds[i].spec_tick(),
                forall|i: int| idx <= i < NUM_NON_RGB_LEDS ==> self@.non_rgb_leds[i] == before.non_rgb_leds[i],
                levels@.len() == idx,
                forall|i: int|
                    0 <= i < idx ==> Some(#[trigger] levels@[i])
                        == spec_non_rgb_led_pin_level(i, self@.non_rgb_leds[i]),
        {
            let next_led_state = self.non_rgb_leds[idx as usize].tick();
            self.non_rgb_leds[idx as usize] = next_led_state;
            let level = non_rgb_led_pin_level(idx, next_led_state);
            match level {
                Some(l) => levels.push(l),
                None => {},
            }
        }
        assert(self@.non_rgb_leds =~= before.spec_tick().non_rgb_leds);
        levels
    }

    /// The colour of RGB LED `id`. An id above the last LED is refused; an
    /// id one past the last LED is not checked by the bound and is left out.
    pub fn get_rgb_led(&self, id: usize) -> (r: Result<RgbState, InvalidRgbLedId>)
        requires
            id != NUM_RGB_LEDS as usize,
        ensures
            r is Ok <==> id < NUM_RGB_LEDS,
            r matches Ok(s) ==> s == self@.rgb_leds[id as int],
            r matches Err(e) ==> e.id == id,
    {
        if id > NUM_RGB_LEDS as usize {
            return Err(InvalidRgbLedId { id });
        }
        Ok(self.rgb_leds[id])
    }

    /// The state of single-colour LED `id`.
    pub fn get_non_rgb_led(&self, id: usize) -> (s: NonRgbState)
        requires
            id < NUM_NON_RGB_LEDS,
        ensures
            s == self@.non_rgb_leds[id as int],
    {
        self.non_rgb_leds[id]
    }
}

} // verus!

verus! {

/// Stepping to the next animation and back, or back and then forward,
/// returns to the animation selected before.
pub proof fn lemma_next_and_prev_undo_each_other(v: ControllerView)
    requires
        v.well_formed(),
    ensures
        v.spec_next_animation().spec_prev_animation() == v,
        v.spec_prev_animation().spec_next_animation() == v,
        v.spec_next_animation().well_formed(),
        v.spec_prev_animation().well_formed(),
{
}

/// Stepping to the next animation as many times as there are animations
/// goes once round the list back to the animation selected before.
pub proof fn lemma_next_goes_round_the_list(v: ControllerView)
    requires
        v.well_formed(),
    ensures
        v.spec_next_animation().spec_next_animation().spec_next_animation().spec_next_animation().spec_next_animation().spec_next_animation().spec_next_animation()
            == v,
{
}

/// A selected animation is the one asked for; a refused selection changes
/// nothing; selecting twice is selecting once.
pub proof fn lemma_set_animation_selects(v: ControllerView, id: int)
    requires
        v.well_formed(),
    ensures
        0 <= id < NUM_ANIMATIONS ==> v.spec_set_animation(id).spec_current_animation()
            == spec_animation_at(id),
        !(0 <= id < NUM_ANIMATIONS) ==> v.spec_set_animation(id) == v,
        v.spec_set_animation(id).spec_set_animation(id) == v.spec_set_animation(id),
        v.spec_set_animation(id).well_formed(),
{
}

/// A request to a single-colour LED changes that LED alone, sending it
/// twice is sending it once, and a refused request changes nothing.
pub proof fn lemma_set_non_rgb_led_touches_one_led(v: ControllerView, request: NonRgbLedRequest, j: int)
    requires
        v.well_formed(),
        0 <= j < NUM_NON_RGB_LEDS,
        j != request.id,
    ensures
        v.spec_set_non_rgb_led(request).non_rgb_leds[j] == v.non_rgb_leds[j],
        v.spec_set_non_rgb_led(request).rgb_leds == v.rgb_leds,
        v.spec_set_non_rgb_led(request).current_animation_idx == v.current_animation_idx,
        v.spec_set_non_rgb_led(request).spec_set_non_rgb_led(request) == v.spec_set_non_rgb_led(
            request,
        ),
        request.id >= NUM_NON_RGB_LEDS ==> v.spec_set_non_rgb_led(request) == v,
        v.spec_set_non_rgb_led(request).well_formed(),
{
    if request.id < NUM_NON_RGB_LEDS {
        let once = v.spec_set_non_rgb_led(request);
        crate::led::lemma_apply_is_idempotent(v.non_rgb_leds[request.id as int], request.state);
        assert(once.spec_set_non_rgb_led(request).non_rgb_leds =~= once.non_rgb_leds);
    }
}

/// Two ticks of the blink loop leave the controller as it was.
pub proof fn lemma_two_ticks_restore(v: ControllerView)
    requires
        v.well_formed(),
    ensures
        v.spec_tick().spec_tick() == v,
        v.spec_tick().well_formed(),
{
    assert(v.spec_tick().spec_tick().non_rgb_leds =~= v.non_rgb_leds);
}

/// Stepping forward selects the id one higher, the last id wrapping round
/// to the first; stepping back selects the id one lower, the first id
/// wrapping round to the last. Nothing else changes.
pub proof fn lemma_stepping_moves_the_id_by_one(v: ControllerView)
    requires
        v.well_formed(),
    ensures
        v.current_animation_idx < 6 ==> v.spec_next_animation().current_animation_idx
            == v.current_animation_idx + 1,
        v.current_animation_idx == 6 ==> v.spec_next_animation().current_animation_idx == 0,
        v.current_animation_idx > 0 ==> v.spec_prev_animation().current_animation_idx
            == v.current_animation_idx - 1,
        v.current_animation_idx == 0 ==> v.spec_prev_animation().current_animation_idx == 6,
        v.spec_next_animation().rgb_leds == v.rgb_leds,
        v.spec_next_animation().non_rgb_leds == v.non_rgb_leds,
        v.spec_prev_animation().rgb_leds == v.rgb_leds,
        v.spec_prev_animation().non_rgb_leds == v.non_rgb_leds,
{
}

/// Selecting id `id` from the list makes `id` the selected id and changes
/// nothing else; any other id changes nothing at all.
pub proof fn lemma_selecting_sets_the_id(v: ControllerView, id: int)
    ensures
        0 <= id < 7 ==> v.spec_set_animation(id).current_animation_idx == id,
        v.spec_set_animation(id).rgb_leds == v.rgb_leds,
        v.spec_set_animation(id).non_rgb_leds == v.non_rgb_leds,
        !(0 <= id < 7) ==> v.spec_set_animation(id).current_animation_idx == v.current_animation_idx,
{
}

/// A request to single-colour LED `j` (0 or 1) turns it on, off, or, to
/// blink, leaves a blinking LED where it is in its blink and puts any other
/// in the dark half; the other LED keeps its state.
pub proof fn lemma_request_sets_the_led(v: ControllerView, request: NonRgbLedRequest)
    requires
        v.well_formed(),
        request.id < 2,
    ensures
        ({
            let after = v.spec_set_non_rgb_led(request).non_rgb_leds;
            let j = request.id as int;
            let before = v.non_rgb_leds[j];
            &&& after.len() == 2
            &&& request.state == NonRgbRequestState::On ==> after[j] == NonRgbState::On
            &&& request.state == NonRgbRequestState::Off ==> after[j] == NonRgbState::Off
            &&& request.state == NonRgbRequestState::Blinking && (before == NonRgbState::BlinkingOn
                || before == NonRgbState::BlinkingOff) ==> after[j] == before
            &&& request.state == NonRgbRequestState::Blinking && (before == NonRgbState::On || before
                == NonRgbState::Off) ==> after[j] == NonRgbState::BlinkingOff
            &&& after[1 - j] == v.non_rgb_leds[1 - j]
        }),
{
}

/// A tick swaps blinking-on and blinking-off on each single-colour LED and
/// leaves steady LEDs, the RGB LEDs and the selection as they are.
pub proof fn lemma_tick_swaps_blinking_leds(v: ControllerView, j: int)
    requires
        v.well_formed(),
        0 <= j < 2,
    ensures
        v.spec_tick().non_rgb_leds.len() == 2,
        v.non_rgb_leds[j] == NonRgbState::BlinkingOn ==> v.spec_tick().non_rgb_leds[j]
            == NonRgbState::BlinkingOff,
        v.non_rgb_leds[j] == NonRgbState::BlinkingOff ==> v.spec_tick().non_rgb_leds[j]
            == NonRgbState::BlinkingOn,
        v.non_rgb_leds[j] == NonRgbState::On ==> v.spec_tick().non_rgb_leds[j] == NonRgbState::On,
        v.non_rgb_leds[j] == NonRgbState::Off ==> v.spec_tick().non_rgb_leds[j] == NonRgbState::Off,
        v.spec_tick().rgb_leds == v.rgb_leds,
        v.spec_tick().current_animation_idx == v.current_animation_idx,
{
}

/// The error texts name the refused id in decimal and the range of valid
/// ids: 0 to 6 for animations, 0 to 1 for single-colour LEDs, and, for an
/// RGB LED looked up past the last, the single-colour wording with 1 to 2.
pub proof fn lemma_error_texts(animation_id: usize, led_id: u8, rgb_id: usize)
    ensures
        (InvalidAnimationId { id: animation_id }).spec_message() == "Invalid animation ID='"@
            + spec_decimal(animation_id as nat) + "'. Expected a value between 0 and 6"@,
        (InvalidNonRgbLedId { id: led_id }).spec_message() == "Invalid non-RGB LED ID='"@
            + spec_decimal(led_id as nat) + "'. Expected a value between 0 and 1"@,
        (InvalidRgbLedId { id: rgb_id }).spec_message() == "Invalid non-RGB LED ID='"@
            + spec_decimal(rgb_id as nat) + "'. Expected a value between 1 and 2"@,
{
    reveal_strlit("'. Expected a value between 0 and 6");
    reveal_strlit("'. Expected a value between 0 and ");
    reveal_strlit("'. Expected a value between 0 and 1");
    reveal_strlit("'. Expected a value between 1 and 2");
    reveal_strlit("'. Expected a value between 1 and ");
    assert(spec_decimal(6) =~= seq!['6']);
    assert(spec_decimal(1) =~= seq!['1']);
    assert(spec_decimal(2) =~= seq!['2']);
    let a = "Invalid animation ID='"@ + spec_decimal(animation_id as nat);
    assert(a + "'. Expected a value between 0 and "@ + seq!['6'] =~= a
        + "'. Expected a value between 0 and 6"@);
    let b = "Invalid non-RGB LED ID='"@ + spec_decimal(led_id as nat);
    assert(b + "'. Expected a value between 0 and "@ + seq!['1'] =~= b
        + "'. Expected a value between 0 and 1"@);
    let c = "Invalid non-RGB LED ID='"@ + spec_decimal(rgb_id as nat);
    assert(c + "'. Expected a value between 1 and "@ + seq!['2'] =~= c
        + "'. Expected a value between 1 and 2"@);
}

} // verus!
