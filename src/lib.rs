//! Incremental framing of CBOR values on an unmarked byte stream.
//!
//! A [`decoder::Decoder`] looks at the front of a caller-owned buffer, asks the CBOR
//! deserializer for one value while counting every byte it pulls through a
//! [`counted::Counted`] reader, and then either removes exactly those bytes and hands
//! the value out, reports that more bytes are needed, or reports malformed
//! input. Bytes leave the buffer only together with a decoded value.
pub mod counted;
pub mod decoder;
