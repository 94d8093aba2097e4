# libmemetendo

A Game Boy Advance emulator core, written in Verus: the ARM7TDMI processor, the memory bus,
interrupts, DMA, timers, keypad, BIOS protection, cartridges (ROM, SRAM, Flash, EEPROM), the
sound unit and the video unit. Every executable function in `src/` carries a contract over a
mathematical model of its device, and Verus proves the code against it.

- `src/` is the verified library. Each device has a model (its `View`) and a well-formedness
  predicate that its constructors establish and its methods keep.
- `tests/` runs the library on concrete values.
- `app/` is a desktop front end (SDL2 window, keyboard, audio queue, command line). It is plain
  Rust and is not verified; it performs what `util::pacing::frame_pacing` decides after each
  frame (sleep and show it, or skip ahead).

Frontends implement `video::Callback` and `audio::Callback` to receive dots and samples; an
implementation may describe its effect through the traits' spec functions, and the contracts
of `Video::step` and `Audio::step` then say exactly what it is handed.
