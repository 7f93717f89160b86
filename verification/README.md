# mlt

Decoding of the integer streams of MapLibre Tiles, with proved contracts.

- `src/decoder/tracked_bytes.rs`: a `bytes::Bytes` buffer that counts the bytes read from it.
- `src/decoder/helpers.rs`, `src/encoder/helpers.rs`: big-endian `u32` words to and from bytes.
- `src/decoder/varint.rs`: sequences of varint-encoded `u32` values.
- `src/decoder/integer.rs`: FastPFor, run-length and ZigZag decoding, and integer streams.
- `src/decoder/integer_decoder.rs`: the earlier integer-stream decoder.
- `src/error.rs`, `src/metadata/`, `src/vector/`: errors, stream metadata, vector kinds.
- `app/lib.rs`: the error types with their messages (`Display`, `std::error::Error`).
