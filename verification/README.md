# dxl

A verified library for the Dynamixel Protocol 2.0 serial bus: building
instruction packets, reading status packets, the CRC-16 they carry, the
control table, and the decisions that driving actuators over a shared bus
takes.

Layout:

- `src/` is the library, verified with Verus.
  - `crc`, `bytes`, `text`: the CRC-16 of the protocol, little-endian
    encoding, numbers written out for messages.
  - `proto`: packets for an actuator ID known at run time. Instruction
    packets are built from typed instructions; status packets are read one
    byte at a time by parsers that are state machines, the persistent one
    skipping what cannot be the awaited answer.
  - `compiletime`, `constants`, `control_table`, `parse`, `packet`: packets
    for an actuator ID fixed by a type parameter, read from the front of a
    byte slice; `packet::parse` skips malformed packets until it reads the
    answer.
  - `driver`: the bookkeeping of a bus (which IDs are taken), what each
    received byte does to an exchange, and the handling of reported errors
    (reading a hardware error, rebooting, enabling torque again; halving the
    profile velocity while it is out of range).
- `app/` is ordinary Rust around the library: the asynchronous exchanges,
  the lock shared between tasks, actuator positions as fractions of the
  position range (floating point), and an RP2040 UART link.
- `tests/` runs the library on concrete packets.
