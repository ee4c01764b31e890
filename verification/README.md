# ansem_punch

The logic of a browser punch animation between two fighters, verified with Verus.

- `src/config.rs`: fighters, tiers, asset paths and the punch range of each tier.
- `src/helpers.rs`: the Fisher–Yates shuffle (with a proof that it permutes) and the
  punch-count draw.
- `src/game.rs`: the state of a match and its decisions: opening frames, dodges,
  punch reshuffles, sound cues and the closing frames, with the laws that tie them.
- `src/random.rs`: the draws taken from `rand`'s thread-local generator.
- `app/`: the browser side (DOM image, audio, the async loop of a match, and the
  floating-point tier choice), built on `wasm-bindgen` and `web-sys`.

The frames at which each sound cue plays (`play_punch_sounds_at`,
`play_dodge_sound_at`, `play_pwrup_sound_at` in `src/config.rs`) are the library's
choice: the frames where a punch lands, the dodge frames and the tier-three
power-up frames.
