//! Named sizing limits of the record store.
//!
//! All limits live here as named constants so that the validator and the
//! create operation speak of one shared configuration rather than scattered
//! literals.

use vstd::prelude::*;

verus! {

/// Bytes taken by the record-type tag that the host prepends to every
/// serialized record.
pub const DISCRIMINATOR_LENGTH: usize = 8;

/// Bytes taken by an author identity (a 32-byte public key) once serialized.
pub const PUBLIC_KEY_LENGTH: usize = 32;

/// Bytes taken by the creation timestamp once serialized.
pub const TIMESTAMP_LENGTH: usize = 8;

/// Largest admissible byte length of a topic is `MAX_TOPIC_LENGTH - 1`.
pub const MAX_TOPIC_LENGTH: usize = 50;

/// Largest admissible byte length of a content body is
/// `MAX_CONTENT_LENGTH - 1`.
pub const MAX_CONTENT_LENGTH: usize = 280;

/// Ceiling on the space a caller may ask the host to allocate beyond the
/// fixed baggage; a declared size at or over this is rejected.
pub const MAX_ACCOUNT_SIZE: u32 = 10_000_000;

} // verus!
