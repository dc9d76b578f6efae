use vstd::prelude::*;

verus! {

/// Number of RGB LEDs on the tree.
pub const NUM_RGB_LEDS: u8 = 6;

/// Number of single-colour (non-RGB) LEDs on the tree.
pub const NUM_NON_RGB_LEDS: u8 = 2;

/// Number of GPIO pins the controller drives: three per RGB LED, one per
/// non-RGB LED.
pub const NUM_GPIO_PINS: u8 = 20;

/// Which program is serving the LEDs. The Raspberry Pi build drives real
/// pins; the local development build only keeps the state in memory, and
/// differs from the Pi build in a few names and animations.
#[derive(Clone, Copy, Debug, PartialEq, Eq, Structural)]
pub enum Deployment {
    RaspberryPi,
    LocalDev,
}

/// Colour shown by one RGB LED.
#[derive(Clone, Copy, Debug, PartialEq, Eq, Structural)]
pub enum RgbState {
    White,
    Red,
    Green,
    Blue,
    /// RGB(255, 255, 0)
    Yellow,
    /// RGB(255, 0, 255); called "purple" by the local development build.
    Magenta,
    /// RGB(0, 255, 255)
    Ciel,
    Off,
}

/// State of one single-colour LED. The two blinking states alternate on
/// every tick of the blink loop.
#[derive(Clone, Copy, Debug, PartialEq, Eq, Structural)]
pub enum NonRgbState {
    On,
    BlinkingOn,
    BlinkingOff,
    Off,
}

/// State a client may ask a single-colour LED to take.
#[derive(Clone, Copy, Debug, PartialEq, Eq, Structural)]
pub enum NonRgbRequestState {
    On,
    Blinking,
    Off,
}

/// A client's request to change one single-colour LED.
#[derive(Clone, Copy, Debug, PartialEq, Eq, Structural)]
pub struct NonRgbLedRequest {
    pub id: u8,
    pub state: NonRgbRequestState,
}

impl RgbState {
    /// The (red, green, blue) channels that are lit for this colour.
    pub open spec fn spec_channels(self) -> (bool, bool, bool) {
        match self {
            RgbState::White => (true, true, true),
            RgbState::Red => (true, false, false),
            RgbState::Green => (false, true, false),
            RgbState::Blue => (false, false, true),
            RgbState::Yellow => (true, true, false),
            RgbState::Magenta => (true, false, true),
            RgbState::Ciel => (false, true, true),
            RgbState::Off => (false, false, false),
        }
    }

    /// The (red, green, blue) channels that are lit for this colour.
    pub fn channels(self) -> (c: (bool, bool, bool))
        ensures
            c == self.spec_channels(),
    {
        match self {
            RgbState::White => (true, true, true),
            RgbState::Red => (true, false, false),
            RgbState::Green => (false, true, false),
            RgbState::Blue => (false, false, true),
            RgbState::Yellow => (true, true, false),
            RgbState::Magenta => (true, false, true),
            RgbState::Ciel => (false, true, true),
            RgbState::Off => (false, false, false),
        }
    }

    /// The name under which the colour travels in JSON.
    pub open spec fn spec_wire_name(self, deployment: Deployment) -> Seq<char> {
        match self {
            RgbState::White => "white"@,
            RgbState::Red => "red"@,
            RgbState::Green => "green"@,
            RgbState::Blue => "blue"@,
            RgbState::Yellow => "yellow"@,
            RgbState::Magenta => match deployment {
                Deployment::RaspberryPi => "magenta"@,
                Deployment::LocalDev => "purple"@,
            },
            RgbState::Ciel => "ciel"@,
            RgbState::Off => "off"@,
        }
    }

    /// The name under which the colour travels in JSON.
    pub fn wire_name(self, deployment: Deployment) -> (name: &'static str)
        ensures
            name@ == self.spec_wire_name(deployment),
    {
        match self {
            RgbState::White => "white",
            RgbState::Red => "red",
            RgbState::Green => "green",
            RgbState::Blue => "blue",
            RgbState::Yellow => "yellow",
            RgbState::Magenta => match deployment {
                Deployment::RaspberryPi => "magenta",
                Deployment::LocalDev => "purple",
            },
            RgbState::Ciel => "ciel",
            RgbState::Off => "off",
        }
    }
}

/// Every colour, in the order the API lists them.
pub open spec fn spec_all_rgb_states() -> Seq<RgbState> {
    seq![
        RgbState::White,
        RgbState::Red,
        RgbState::Green,
        RgbState::Blue,
        RgbState::Yellow,
        RgbState::Magenta,
        RgbState::Ciel,
        RgbState::Off,
    ]
}

/// Every state a client may request for a single-colour LED, in the order
/// the API lists them.
pub open spec fn spec_all_request_states() -> Seq<NonRgbRequestState> {
    seq![NonRgbRequestState::On, NonRgbRequestState::Blinking, NonRgbRequestState::Off]
}

impl NonRgbState {
    /// Whether the LED is lit in this state.
    pub open spec fn spec_is_lit(self) -> bool {
        self == NonRgbState::On || self == NonRgbState::BlinkingOn
    }

    /// Whether the LED is lit in this state.
    pub fn is_lit(self) -> (lit: bool)
        ensures
            lit == self.spec_is_lit(),
    {
        match self {
            NonRgbState::On | NonRgbState::BlinkingOn => true,
            NonRgbState::Off | NonRgbState::BlinkingOff => false,
        }
    }

    /// Whether the LED is blinking.
    pub open spec fn spec_is_blinking(self) -> bool {
        self == NonRgbState::BlinkingOn || self == NonRgbState::BlinkingOff
    }

    /// The state after one tick of the blink loop: steady states stay, the
    /// blinking states swap.
    pub open spec fn spec_tick(self) -> NonRgbState {
        match self {
            NonRgbState::On => NonRgbState::On,
            NonRgbState::Off => NonRgbState::Off,
            NonRgbState::BlinkingOn => NonRgbState::BlinkingOff,
            NonRgbState::BlinkingOff => NonRgbState::BlinkingOn,
        }
    }

    /// The state after one tick of the blink loop.
    pub fn tick(self) -> (next: NonRgbState)
        ensures
            next == self.spec_tick(),
    {
        match self {
            NonRgbState::On => NonRgbState::On,
            NonRgbState::Off => NonRgbState::Off,
            NonRgbState::BlinkingOn => NonRgbState::BlinkingOff,
            NonRgbState::BlinkingOff => NonRgbState::BlinkingOn,
        }
    }

    /// The state after a client's request: on and off are taken at once; a
    /// request to blink leaves an LED that already blinks alone and starts
    /// any other in the dark half of the blink, so that the next tick lights
    /// it.
    pub open spec fn spec_apply(self, request: NonRgbRequestState) -> NonRgbState {
        match request {
            NonRgbRequestState::On => NonRgbState::On,
            NonRgbRequestState::Off => NonRgbState::Off,
            NonRgbRequestState::Blinking => if self.spec_is_blinking() {
                self
            } else {
                NonRgbState::BlinkingOff
            },
        }
    }

    /// The state after a client's request.
    pub fn apply(self, request: NonRgbRequestState) -> (next: NonRgbState)
        ensures
            next == self.spec_apply(request),
    {
        match request {
            NonRgbRequestState::On => NonRgbState::On,
            NonRgbRequestState::Off => NonRgbState::Off,
            NonRgbRequestState::Blinking => {
                if self != NonRgbState::BlinkingOn && self != NonRgbState::BlinkingOff {
                    NonRgbState::BlinkingOff
                } else {
                    self
                }
            },
        }
    }

    /// The name under which the state travels in JSON.
    pub open spec fn spec_wire_name(self) -> Seq<char> {
        match self {
            NonRgbState::On => "on"@,
            NonRgbState::BlinkingOn => "blinking-on"@,
            NonRgbState::BlinkingOff => "blinking-off"@,
            NonRgbState::Off => "off"@,
        }
    }

    /// The name under which the state travels in JSON.
    pub fn wire_name(self) -> (name: &'static str)
        ensures
            name@ == self.spec_wire_name(),
    {
        match self {
            NonRgbState::On => "on",
            NonRgbState::BlinkingOn => "blinking-on",
            NonRgbState::BlinkingOff => "blinking-off",
            NonRgbState::Off => "off",
        }
    }
}

impl NonRgbRequestState {
    /// The name under which a client sends the request.
    pub open spec fn spec_wire_name(self) -> Seq<char> {
        match self {
            NonRgbRequestState::On => "on"@,
            NonRgbRequestState::Blinking => "blinking"@,
            NonRgbRequestState::Off => "off"@,
        }
    }

    /// The name under which a client sends the request.
    pub fn wire_name(self) -> (name: &'static str)
        ensures
            name@ == self.spec_wire_name(),
    {
        match self {
            NonRgbRequestState::On => "on",
            NonRgbRequestState::Blinking => "blinking",
            NonRgbRequestState::Off => "off",
        }
    }
}

/// The colour names a client may see, in the order of
/// `spec_all_rgb_states`.
pub fn possible_rgb_led_states(deployment: Deployment) -> (names: Vec<&'static str>)
    ensures
        names@.len() == spec_all_rgb_states().len(),
        forall|i: int|
            0 <= i < names@.len() ==> #[trigger] names@[i]@ == spec_all_rgb_states()[i].spec_wire_name(
                deployment,
            ),
{
    let all = [
        RgbState::White,
        RgbState::Red,
        RgbState::Green,
        RgbState::Blue,
        RgbState::Yellow,
        RgbState::Magenta,
        RgbState::Ciel,
        RgbState::Off,
    ];
    let mut names: Vec<&'static str> = Vec::new();
    for i in 0..8
        invariant
            all@ == spec_all_rgb_states(),
            names@.len() == i,
            forall|j: int|
                0 <= j < i ==> #[trigger] names@[j]@ == spec_all_rgb_states()[j].spec_wire_name(
                    deployment,
                ),
    {
        names.push(all[i].wire_name(deployment));
    }
    names
}

/// The request states a client may send, in the order of
/// `spec_all_request_states`.
pub fn possible_non_rgb_led_states() -> (names: Vec<&'static str>)
    ensures
        names@.len() == spec_all_request_states().len(),
        forall|i: int|
            0 <= i < names@.len() ==> #[trigger] names@[i]@
                == spec_all_request_states()[i].spec_wire_name(),
{
    let mut names: Vec<&'static str> = Vec::new();
    names.push(NonRgbRequestState::On.wire_name());
    names.push(NonRgbRequestState::Blinking.wire_name());
    names.push(NonRgbRequestState::Off.wire_name());
    names
}

} // verus!

verus! {

/// Two ticks of the blink loop bring every single-colour LED back to where
/// it was.
pub proof fn lemma_tick_twice_is_identity(s: NonRgbState)
    ensures
        s.spec_tick().spec_tick() == s,
{
}

/// A tick keeps a steady LED as it is and flips a blinking LED between lit
/// and dark while it keeps blinking.
pub proof fn lemma_tick_flips_blinking_leds(s: NonRgbState)
    ensures
        !s.spec_is_blinking() ==> s.spec_tick() == s,
        s.spec_is_blinking() ==> s.spec_tick().spec_is_blinking() && s.spec_tick().spec_is_lit()
            != s.spec_is_lit(),
{
}

/// Sending the same request twice leaves the LED as sending it once.
pub proof fn lemma_apply_is_idempotent(s: NonRgbState, request: NonRgbRequestState)
    ensures
        s.spec_apply(request).spec_apply(request) == s.spec_apply(request),
{
}

/// After a request to blink, the LED blinks; an LED that did not blink yet
/// is lit by the very next tick.
pub proof fn lemma_blink_request_lights_on_next_tick(s: NonRgbState)
    ensures
        s.spec_apply(NonRgbRequestState::Blinking).spec_is_blinking(),
        !s.spec_is_blinking() ==> s.spec_apply(NonRgbRequestState::Blinking).spec_tick()
            == NonRgbState::BlinkingOn,
{
}

/// Distinct colours light distinct sets of channels, so every colour can
/// be told apart on the tree; only `Off` lights none.
pub proof fn lemma_channels_tell_colours_apart(a: RgbState, b: RgbState)
    ensures
        a.spec_channels() == b.spec_channels() ==> a == b,
        a.spec_channels() == (false, false, false) <==> a == RgbState::Off,
{
}

/// Within one deployment, distinct colours travel under distinct names.
pub proof fn lemma_rgb_wire_names_distinct(a: RgbState, b: RgbState, deployment: Deployment)
    requires
        a != b,
    ensures
        a.spec_wire_name(deployment) != b.spec_wire_name(deployment),
{
    reveal_strlit("white");
    reveal_strlit("red");
    reveal_strlit("green");
    reveal_strlit("blue");
    reveal_strlit("yellow");
    reveal_strlit("magenta");
    reveal_strlit("purple");
    reveal_strlit("ciel");
    reveal_strlit("off");
    let (na, nb) = (a.spec_wire_name(deployment), b.spec_wire_name(deployment));
    // Names of equal length already differ in their first letter.
    assert(na.len() != nb.len() || na[0] != nb[0]);
}

/// Distinct single-colour LED states travel under distinct names.
pub proof fn lemma_non_rgb_wire_names_distinct(a: NonRgbState, b: NonRgbState)
    requires
        a != b,
    ensures
        a.spec_wire_name() != b.spec_wire_name(),
{
    reveal_strlit("on");
    reveal_strlit("blinking-on");
    reveal_strlit("blinking-off");
    reveal_strlit("off");
    let (na, nb) = (a.spec_wire_name(), b.spec_wire_name());
    assert(na.len() != nb.len());
}

/// What each request does, for every state the LED may be in: on and off
/// are taken whatever the LED did before, blinking keeps an LED that
/// already blinks where it is in its blink and starts any other dark.
pub proof fn lemma_requests_do_what_they_name(s: NonRgbState)
    ensures
        s.spec_apply(NonRgbRequestState::On) == NonRgbState::On,
        s.spec_apply(NonRgbRequestState::Off) == NonRgbState::Off,
        s == NonRgbState::BlinkingOn ==> s.spec_apply(NonRgbRequestState::Blinking)
            == NonRgbState::BlinkingOn,
        s == NonRgbState::BlinkingOff ==> s.spec_apply(NonRgbRequestState::Blinking)
            == NonRgbState::BlinkingOff,
        (s == NonRgbState::On || s == NonRgbState::Off) ==> s.spec_apply(
            NonRgbRequestState::Blinking,
        ) == NonRgbState::BlinkingOff,
        s.spec_apply(NonRgbRequestState::On).spec_is_lit(),
        !s.spec_apply(NonRgbRequestState::Off).spec_is_lit(),
        !s.spec_apply(NonRgbRequestState::Off).spec_is_blinking(),
{
}

/// What a tick does to each state: on and off stay, blinking-on goes dark
/// and blinking-off lights up.
pub proof fn lemma_tick_per_state()
    ensures
        NonRgbState::On.spec_tick() == NonRgbState::On,
        NonRgbState::Off.spec_tick() == NonRgbState::Off,
        NonRgbState::BlinkingOn.spec_tick() == NonRgbState::BlinkingOff,
        NonRgbState::BlinkingOff.spec_tick() == NonRgbState::BlinkingOn,
        NonRgbState::On.spec_is_lit() && NonRgbState::BlinkingOn.spec_is_lit(),
        !NonRgbState::Off.spec_is_lit() && !NonRgbState::BlinkingOff.spec_is_lit(),
{
}

/// The channels of each colour are those of its RGB value: white
/// (255, 255, 255), red (255, 0, 0), green (0, 255, 0), blue (0, 0, 255),
/// yellow (255, 255, 0), magenta (255, 0, 255), ciel (0, 255, 255), off
/// (0, 0, 0).
pub proof fn lemma_colour_channels_follow_rgb_values()
    ensures
        RgbState::White.spec_channels() == (true, true, true),
        RgbState::Red.spec_channels() == (true, false, false),
        RgbState::Green.spec_channels() == (false, true, false),
        RgbState::Blue.spec_channels() == (false, false, true),
        RgbState::Yellow.spec_channels() == (true, true, false),
        RgbState::Magenta.spec_channels() == (true, false, true),
        RgbState::Ciel.spec_channels() == (false, true, true),
        RgbState::Off.spec_channels() == (false, false, false),
{
}

/// The JSON names of the colours and of the single-colour LED states.
pub proof fn lemma_wire_names()
    ensures
        RgbState::White.spec_wire_name(Deployment::RaspberryPi) == "white"@,
        RgbState::Red.spec_wire_name(Deployment::RaspberryPi) == "red"@,
        RgbState::Green.spec_wire_name(Deployment::RaspberryPi) == "green"@,
        RgbState::Blue.spec_wire_name(Deployment::RaspberryPi) == "blue"@,
        RgbState::Yellow.spec_wire_name(Deployment::RaspberryPi) == "yellow"@,
        RgbState::Magenta.spec_wire_name(Deployment::RaspberryPi) == "magenta"@,
        RgbState::Magenta.spec_wire_name(Deployment::LocalDev) == "purple"@,
        RgbState::Ciel.spec_wire_name(Deployment::RaspberryPi) == "ciel"@,
        RgbState::Off.spec_wire_name(Deployment::RaspberryPi) == "off"@,
        forall|c: RgbState| c != RgbState::Magenta ==> #[trigger] c.spec_wire_name(Deployment::LocalDev)
            == c.spec_wire_name(Deployment::RaspberryPi),
        NonRgbState::On.spec_wire_name() == "on"@,
        NonRgbState::BlinkingOn.spec_wire_name() == "blinking-on"@,
        NonRgbState::BlinkingOff.spec_wire_name() == "blinking-off"@,
        NonRgbState::Off.spec_wire_name() == "off"@,
        NonRgbRequestState::On.spec_wire_name() == "on"@,
        NonRgbRequestState::Blinking.spec_wire_name() == "blinking"@,
        NonRgbRequestState::Off.spec_wire_name() == "off"@,
{
}

/// The API lists the colours white, red, green, blue, yellow, magenta,
/// ciel, off, and the requests on, blinking, off, in that order.
pub proof fn lemma_possible_states_in_order()
    ensures
        spec_all_rgb_states() == seq![
            RgbState::White,
            RgbState::Red,
            RgbState::Green,
            RgbState::Blue,
            RgbState::Yellow,
            RgbState::Magenta,
            RgbState::Ciel,
            RgbState::Off,
        ],
        spec_all_request_states() == seq![
            NonRgbRequestState::On,
            NonRgbRequestState::Blinking,
            NonRgbRequestState::Off,
        ],
{
}

} // verus!
