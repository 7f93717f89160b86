pub mod helpers;
pub mod integer;
pub mod integer_decoder;
pub mod tracked_bytes;
pub mod varint;
