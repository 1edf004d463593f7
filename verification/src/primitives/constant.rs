use vstd::prelude::*;

verus! {

/// Identifier of a pool: 32 raw bytes.
pub type ID = [u8; 32];

} // verus!
