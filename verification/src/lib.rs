//! Verified codec for the Dash7 ALP (Application Layer Protocol) binary format.
//!
//! Every encodable item exposes its encoding as a spec function over bytes, and its
//! decoders are proved to read back exactly what the encoders write.
pub mod codec;
pub mod decodable;
pub mod define;
pub mod variable_uint;
pub mod text;
pub mod varint;
pub mod v1_2;
pub mod wizzilab;
