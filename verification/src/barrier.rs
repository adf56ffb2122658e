//! Compiler barriers around the accesses that start and stop a transfer.

use vstd::prelude::*;

verus! {

/// The two barriers that the driver emits.
#[derive(Clone, Copy, Debug, PartialEq, Eq, Structural)]
pub enum Barrier {
    /// Keeps every earlier memory access before the accesses that follow;
    /// emitted before a channel is armed.
    Release,
    /// Keeps accesses on either side from crossing; emitted after a channel
    /// is stopped.
    Full,
}

/// Calls `core::sync::atomic::compiler_fence`, with `Ordering::Release` for
/// [`Barrier::Release`] and `Ordering::SeqCst` for [`Barrier::Full`]. The call
/// returns nothing and touches no value of the program, so nothing is
/// claimed of it.
#[verifier::external_body]
pub(crate) fn compiler_fence(kind: Barrier) {
    match kind {
        Barrier::Release => core::sync::atomic::compiler_fence(
            core::sync::atomic::Ordering::Release,
        ),
        Barrier::Full => core::sync::atomic::compiler_fence(core::sync::atomic::Ordering::SeqCst),
    }
}

} // verus!
