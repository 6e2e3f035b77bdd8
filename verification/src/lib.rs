//! Codec and ordering subsystem for the HTTP/2 SETTINGS frame.
//!
//! The library decodes an untrusted SETTINGS payload into a validated,
//! strongly-typed settings set, and encodes an application-built settings
//! set back into wire bytes, preserving a caller-controlled emission order
//! and tolerating unknown setting identifiers.

pub mod buf;
pub mod experimental;
pub mod flags;
pub mod frame;
pub mod ids;
pub mod order;
pub mod setting;
pub mod settings;
pub mod svec;
