//! The proof-of-work hash, from the `drillx` crate.
//!
//! Nothing here is proved. The hash is carried out for its cost alone: a
//! worker measures how many hashes it gets through and keeps none of them.

use drillx::equix::SolverMemory;
use vstd::prelude::*;

verus! {

/// `equix::SolverMemory`, as `drillx` re-exports it: the scratch space one
/// hash computation works in. It is carried through without looking inside.
#[verifier::external_type_specification]
#[verifier::external_body]
pub struct ExSolverMemory(drillx::equix::SolverMemory);

/// `SolverMemory::new` allocates fresh scratch space on the heap. Nothing is
/// claimed of its contents.
pub assume_specification[ drillx::equix::SolverMemory::new ]() -> SolverMemory;

/// Calls `drillx::hash_with_memory` on the challenge and the little-endian
/// bytes of the nonce, in the given scratch space, and drops what comes back,
/// a hash or an error alike. Nothing is claimed of the scratch space
/// afterwards.
#[verifier::external_body]
pub(crate) fn hash_nonce(memory: &mut SolverMemory, challenge: &[u8; 32], nonce: u64) {
    let _ = drillx::hash_with_memory(memory, challenge, &nonce.to_le_bytes());
}

} // verus!
