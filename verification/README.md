# demo1

Firmware logic for an RP2040 board that receives and sends text over a
pulse-distance infrared link, verified with Verus.

- `src/infrared.rs` — the edge-timing decoder (`IrDecoder::tick`), specified
  as a state machine (`step`), with laws on where each event comes from.
- `src/text.rs` — collects decoded bits and reports them with their UTF-8
  text (bits packed least-significant first; malformed sequences as U+FFFD).
- `src/bits.rs` — least-significant-first bit packing over `bitvec`.
- `src/transmit.rs` — the silence detector and the sample scheduler of the
  transmitter.
- `src/button_led.rs`, `src/clock.rs` — the button-controlled blinker, the
  spin delay and the loop-rate counter; clock readings through `embassy_time`.
- `app/` — the board programs: pins, PWM, USB logging, timers and waits.
- `tests/` — tests of the library on concrete inputs.
