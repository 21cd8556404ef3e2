//! A verified model of a cross-boundary object lifecycle protocol.
//!
//! A heap-allocated `Person` record is created by a factory, read through
//! accessors, and destroyed exactly once by an explicit destructor. Handles
//! are opaque values; a null handle is a defined no-op for the accessors and
//! destructors. Incoming text arrives as raw bytes (the payload of a
//! nul-terminated buffer) and is decoded as UTF-8 with lossy substitution;
//! outgoing text is returned as a separately owned buffer with its own
//! release operation.

pub mod owned;
pub mod person;
pub mod store;
pub mod text;
