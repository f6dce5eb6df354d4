use vstd::prelude::*;

verus! {

/// A protocol version: a positive integer, totally ordered, that identifies
/// the set of protocol features in force.
pub type ProtocolVersion = u32;

} // verus!
