# led_control

The verified core of a Raspberry Pi LED tree: six RGB LEDs and two
single-colour LEDs on twenty GPIO pins, animated and controlled over an
HTTP API, with a web front end.

- `src/` is the library, verified with Verus:
  - `led`: colours, single-colour LED states, blink ticks, client requests,
    and the names they travel under in JSON;
  - `pins`: which pin carries which LED and colour channel, and the pin
    levels that show a state;
  - `animation`: the animation list and every animation's frames, frame
    times and the check that keeps an animation going;
  - `player`: the decisions of the loop that plays the selected animation;
  - `controller`: the state the API reads and changes, with its laws;
  - `text`: decimal notation for the API's error messages;
  - `web`: the front end's proxy URLs, asset paths and replies.
- `app/` holds the programs: the Pi's GPIO controller, a local
  development server without pins, and the two web front ends. They do
  the I/O (HTTP, sleeping, pin writes) and ask the library for every
  decision.
- `tests/` runs the library on concrete values.
