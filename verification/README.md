# n64_systemtest

The verified core of an N64 test ROM, written in Verus.

- `src/cmd.rs`, `src/state.rs`, `src/rdram.rs`, `src/raster.rs`, `src/triangle.rs`,
  `src/soft.rs`: a software RDP. Raw 64-bit command words are decoded and interpreted against an
  abstract RDRAM (`Rdram`, with `SliceRdram` over plain slices). Every function states its
  memory effect exactly; `SoftRdp::run` is specified by `run_from`, one `command_step` per
  command.
- `src/assembler.rs`: MIPS R4300 instruction encoders, each with the exact word it produces.
- `src/rdp_assembler.rs`: an RDP command stream builder; round-trip laws show that the words it
  writes decode, on the software RDP side, to the values they were built from.
- `src/memory_map.rs`, `src/vi.rs`: address arithmetic of the memory map and the VI register
  values and decisions.
- `src/uint.rs`: the small unsigned integer types (`U4` ... `U26`) used by the encoders.
- `app/`: the volatile VI register accesses, the boot-time memory map values and `main`.
- `tests/`: concrete scenarios for the encoders, the command stream builder and the software RDP.
