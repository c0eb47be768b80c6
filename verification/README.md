# host_flash

Flash programming from the host over a debug interface, verified with Verus.

- `src/flasher.rs`, `src/run.rs`, `src/layout.rs`: the host-side flasher. It turns the
  regions that are to be programmed into a list of operations, and a run carries that list
  out up to the first failure.
- `src/laws.rs`: what holds of every run.
- `src/ti/`: CC23xx and CC27xx devices, which are programmed by SACI commands of their boot
  ROM: registers, command words, checksums, scripts of probe operations, and the debug
  sequences around them; `src/ti/laws.rs` holds their laws.
- `app/`: the drivers, which perform the operations on a debug session.
- `tests/`: tests on concrete values.

The library performs no I/O. A run or a script names its next operation, the driver performs
it and reports what came of it.
