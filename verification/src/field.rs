use vstd::prelude::*;

verus! {

/// Width of the field of play.
pub const FIELD_WIDTH: i64 = 400;

/// Height of the field of play.
pub const FIELD_HEIGHT: i64 = 600;

/// Generous bound on every coordinate and velocity. It exists only so that
/// the position updates can be proved free of overflow; no reachable state of
/// the game comes anywhere near it.
pub const COORD_LIMIT: i64 = 1_000_000_000_000;

} // verus!
