//! The GPU future chain: opaque ordering tokens for CPU/GPU overlap.

use vstd::prelude::*;

verus! {

/// An opaque ordering token: "GPU work up to this point of the submission
/// chain has been (or will be) submitted in order".
///
/// A token is consumed exactly once, by value, when further work is chained
/// after it, and is replaced by a new token for the extended chain. The type
/// is deliberately move-only (no `Clone`, no `Copy`) and keeps its chain
/// point private: reading a token twice, or minting a duplicate, would break
/// the ordering discipline that substitutes for CPU-side waits.
#[derive(Debug)]
pub struct GpuFuture {
    chain: u64,
}

impl GpuFuture {
    /// The position of this token in the submission chain.
    pub closed spec fn point(self) -> u64 {
        self.chain
    }

    /// Mints the token for a point the collaborator has acquired (for
    /// example, "image N is available for writing"). Only the collaborator
    /// that owns the swapchain starts a chain; everything after that extends
    /// one token at a time.
    pub fn at(point: u64) -> (r: GpuFuture)
        ensures
            r.point() == point,
    {
        GpuFuture { chain: point }
    }

    /// Reads the chain point without consuming the token. Observing the
    /// number is harmless; only chaining consumes the token itself.
    pub fn point_value(&self) -> (r: u64)
        ensures
            r == self.point(),
    {
        self.chain
    }
}

} // verus!
