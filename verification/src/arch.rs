//! Memory-fence primitives backing the sequence-lock protocol.
//!
//! The lock's reader and writer paths bracket their accesses with ordering
//! directives so that, on a weakly ordered machine, the sequence-counter
//! loads and stores form an acquire/release pair around the payload access.
//! The fences move no data; they only constrain instruction and memory
//! ordering, so nothing about any value can be stated of them.

use vstd::prelude::*;

verus! {

/// Relies on `core::sync::atomic::fence` with `Ordering::Acquire`: an
/// ordering directive issued after a read; it touches no value and returns
/// nothing.
#[verifier::external_body]
pub(crate) fn read_fence() {
    core::sync::atomic::fence(core::sync::atomic::Ordering::Acquire);
}

/// Relies on `core::sync::atomic::fence` with `Ordering::Release`: an
/// ordering directive issued before publishing a write; it touches no value
/// and returns nothing.
#[verifier::external_body]
pub(crate) fn write_fence() {
    core::sync::atomic::fence(core::sync::atomic::Ordering::Release);
}

} // verus!
