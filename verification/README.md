# haptics_sdk

The core of a haptics SDK: the `.haptic` data model and its validation, reading haptic data
from JSON, splitting AHAP patterns, the streaming event reader that turns haptic clips into ramp
events (with seeking and looped playback), renderer settings, and small DSP building blocks.

The library in `src/` is written in Verus and verified: each public function carries a contract
that states its result, and the properties that the SDK promises (validation accepts exactly the
rules of the format, a split AHAP is a partition of its patterns, a clip is read out as its
amplitude and frequency event streams merged in time order, a delay line delays by its length,
...) are proved as lemmas next to the code.

Floating-point values are held by the library as their IEEE-754 bit patterns (`F32Bits`), with
verified IEEE comparisons, so that the decisions the library takes over them are verified.
Floating-point arithmetic stays outside the library, and so does the logic that is interwoven
with it: breakpoint reduction, emphasis picking, ramp splitting and the other DSP and analysis
code in `app/`. The oscillator renderer and the audio-to-haptics analysis are not part of this
crate.

## Layout

- `src/` — the verified library (`haptics_sdk`)
- `tests/` — tests of the library
- `app/` — the code around the library: JSON serialization with serde, floating-point DSP,
  analysis and rendering helpers, audio decoding with Symphonia, the timing side of the
  streaming event reader, and the JSON interface used by Haptics Studio
