use vstd::prelude::*;

verus! {

/// Capacity, in messages, of each queue on the bus.
pub const CAP: usize = 16;

} // verus!
