# pluto

A verified library for a Casio F-91W-style wristwatch: the watch logic, with
its behaviour stated in `requires` / `ensures` contracts and proved by Verus.

## Layout

- `src/` — the library.
  - `time` — civil calendar math (`DateTime::from_epoch_ms`, `epoch_ms_of`,
    weekdays, leap years), with laws: day numbers are injective, count days
    and round-trip through epoch milliseconds.
  - `font`, `letters`, `display` — the glass model: a display is the set of
    lit `(com, seg)` segments; drawing a digit, a letter or an indicator
    changes exactly the segments of its position.
  - `hardware` — the peripherals beyond the glass; every request is recorded
    in the display's effect log.
  - `input` — button gesture recognition (press on release, double-click,
    hold with auto-repeat).
  - `face`, `faces/*` — the `Face` trait and the five faces (clock, alarm,
    simple alarm, timer, calendar). Each face states its state changes
    (`after_*`), what it requests of the hardware (`*_effects`), its
    invariant and what it draws.
  - `watch` — the runtime: face switching, chords, backlight, hourly chime,
    background ticks, with the state, the hardware requests and the glass
    (cleared whenever the active face changes) of every tick and button
    sample stated; laws on face state being kept across switches, the
    chime sounding once per hour and the backlight timing out.
  - `legacy` — the app/view framework of the pluto firmware (runtime,
    position-based glass, text drawing, launcher / time / configuration
    apps).
  - `recorder` — an in-memory `Hardware`: the glass can be read back and the
    requests are logged. The tests and the platforms drive the watch with it.
  - `bits` — single-bit register updates.
- `tests/` — scenario tests of the library.
- `app/` — the platforms: the browser emulators (WASM exports) and the
  MSP430 firmware, mirroring a recorder onto the page or the LCD.
