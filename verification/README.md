# bgp_serde

A serde serializer for BGP messages: values are written to a `bytes::BytesMut`
in network byte order, with no framing of their own; signed integers, floats,
text and maps are refused with an error that names the type, variant and field
being written.

- `src/` — the verified library (Verus): the output buffer's trusted interface
  (`buffer.rs`), big-endian encoding (`encoding.rs`), errors and their messages
  (`error.rs`), and the serializer's step-by-step behaviour (`ser.rs`).
- `app/` — the serde glue: `to_bytes` and the `serde::Serializer` impls, which
  hand each step of serde's traversal to the library.
- `tests/` — tests of the library.
