# noise_cancellation

A real-time noise-cancellation engine: audio is captured from a microphone,
run through high-pass, ultrasonic, spectral-gate, noise-gate and low-pass
stages, and played back.

- `src/` is the verified library (Verus): the stage plan, the framing of a
  buffer for the spectral gate, how an output block is filled, the level
  monitor's sample clock, device listing and lookup, the stream settings and
  the shutdown order, each with its contract and laws.
- `app/` is the program around it: audio devices and streams, the DSP filters
  themselves (floating point), the configuration file and the user interface.
- `tests/` runs the library on concrete values.
