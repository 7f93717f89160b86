pub mod stream;
pub mod stream_encoding;
