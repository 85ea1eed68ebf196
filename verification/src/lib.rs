//! Compact, globally unique, time-ordered 128-bit identifiers ("flakes").
//!
//! An identifier packs three fields, most significant first: a 64-bit
//! millisecond timestamp, a 48-bit node identifier and a 16-bit sequence
//! number. Distinct nodes therefore never collide, and identifiers minted
//! by one node sort by creation order.

/// Generation of flake identifiers: the generator and its error types.
pub mod gen;

/// The [`id::Flake`] value type: the identifier itself with its encodings.
pub mod id;

/// The per-node sequence counter behind a generator.
pub mod seq;
