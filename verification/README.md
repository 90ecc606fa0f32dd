# unison_supersaw

Voice management and envelope logic of a polyphonic unison supersaw
instrument with a one-shot Attack / Multiply / Decay envelope, verified with
Verus.

- `src/envelope.rs`: the phases of the envelope, what one sample does in each
  phase, and the laws of the one-shot course (no way back, idle is final
  until the next note-on, idle after three phase ends).
- `src/voices.rs`: the pool of 32 voices, voice allocation on note-on (first
  idle voice, else the first voice is stolen), event timing, and the laws of
  allocation.
- `src/unison.rs`: how many unison voices an oscillator layer plays.
- `app/lib.rs`: the plugin itself (parameters, audio callback, oscillators,
  envelope clock and level), which keeps the floating-point signal path and
  calls the library for every decision.
