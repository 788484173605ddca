# subsocial_runtime

The configuration logic of the Subsocial parachain runtime, verified with Verus.

- `src/time.rs`: block time and the time units counted in blocks.
- `src/arith.rs`: parts-per-billion ratios and two-dimensional weights; the arithmetic is
  `sp_runtime`'s and `frame_support`'s.
- `src/limits.rs`: block weight and block length limits, built by `frame_system`.
- `src/permissions.rs`: the default permissions of a space.
- `src/message.rs`: the cross-chain message and its SCALE encoding, with the round-trip
  laws.
- `src/version.rs`: the runtime's version.
- `src/config.rs`: the parameters handed to the pallets.
- `app/lib.rs`: the message and the version in the outside crates' own types.
