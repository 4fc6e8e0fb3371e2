//! Serialization of BGP message types to network-order bytes.
//!
//! The wire format is binary and self-describing: unsigned integers are
//! written big-endian, booleans as a single byte, byte strings verbatim, and
//! compound values as the concatenation of their fields. Signed integers,
//! floats, text and maps are refused with an error that names the type,
//! variant and field being written.

pub mod buffer;
pub mod encoding;
pub mod error;
pub mod ser;

pub use error::{Result, SerializerError};
pub use ser::Serializer;
