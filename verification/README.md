# toycar

The logic of a two-board radio-controlled car (a joystick controller and a
vehicle, both ESP32-C6, talking over ESP-NOW) and of its host dashboard, as a
library whose functions carry contracts that Verus proves.

- `src/` — the verified library: the control packet and its sequence rule, the
  ESP-NOW frame envelope, the link watchdog, the pairing record in flash, the
  link layer over an abstract transport, joystick and drive mappings, current
  sense scaling, the boards' loop decisions, USB frame reassembly, and the
  dashboard's telemetry model, command grammar and event-log lines.
- `tests/` — tests that run the library with the real outside crates linked.
- `app/` — the host dashboard program (`pitwall`): serial I/O, the postcard
  wire encoding of the host protocol, the terminal UI, and a `--plain`
  line-oriented mode that prints log lines and reads commands from stdin.

The firmware programs themselves (radio, GPIO, ADC, flash, LED drivers) need
the target-only ESP32 crates; their decisions are the functions of
`src/vehicle.rs`, `src/controller.rs` and `src/gateway.rs`, which return what
to do as plain values.
