# zoom-sync

Cross-platform utility to sync Zoom65 v3 screen modules: clock, weather report,
CPU/GPU temperatures and download rate.

## Layout

- `src/` — the verified library (Verus):
  - `types.rs` — weather icons, the WMO-code-to-icon table, the driver's errors.
  - `protocol.rs` — the byte protocol: update reports, payloads, response checks,
    firmware version approval, device matching.
  - `hid.rs` — the hidapi boundary: the device list, and `HidLink`, an opened
    device whose record of accepted writes and completed reads only hidapi's
    `write`/`read` extend.
  - `keyboard.rs` — `Zoom65v3`, the keyboard handle; `open_in` opens the first
    matching interface and checks the firmware, and every command's contract
    speaks of the reports written to the device and the responses read from it.
  - `sync.rs` — the decisions of a sync pass: temperature clamping, day/night,
    and the weather pass as a state machine.
  - `sensors.rs` — picking the CPU temperature sensor by label.
  - `consts.rs`, `consts/commands.rs` — device ids and command ids.
- `app/` — the command-line program: argument parsing, clock, sensors, network
  lookups, floating-point conversions, and the refresh loop.
- `tests/` — tests of the library.
