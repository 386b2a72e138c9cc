# hex_motor

A driver for HEX-MECHA CiA402 motors on a CAN bus. What it decides, and the
frames and writes that follow, are verified with
[Verus](https://github.com/verus-lang/verus). Floating-point arithmetic is not:
torques in thousandths and in Nm, gains, the fields of a compressed target and the
slope of the velocity filter are computed in `app/` and handed to the library.

- `src/` is the verified library. It does no input or output and reads no
  clock: frames, replies and times are handed to it, and it says what to send,
  what to write and what has happened.
  - `canopen/`: identifiers, network management, heartbeats, PDO mappings, SDO
    values.
  - `cia402/`: decoding of PDOs, control sequences, discovery, initialization,
    streams and the manager of the motors on one bus.
- `app/` carries this out on a `can_transport::CanBus` with tokio, and shows
  positions, velocities and torques as floating-point numbers.
- `tests/` runs the library.

Numbers in single precision are held by their bits (`number::Real32`); times
are held in nanoseconds (`time::Instant`, `time::Duration`).

A motor is `Unknown` when its heartbeat is first heard, `Identified` when its
identity has been read, and `Initialized` when its PDOs have been configured
and its fault, if any, has been cleared. Only an initialized motor can be
controlled. One operation at a time claims a node; the others are refused.
