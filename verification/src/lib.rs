//! Scoped raw-mode control of a terminal: capture the current attribute
//! state, derive and apply a raw variant, and restore the captured state
//! exactly once when the guard is released — uniformly across a
//! structure-based attribute backend and a sequence-based one.

pub mod backend;
pub mod escape;
pub mod mem;
pub mod posix;
pub mod raw;
pub mod sink;

use vstd::prelude::*;

verus! {

/// Errors reported by a terminal attribute control backend.
#[derive(Clone, Copy, PartialEq, Eq, Debug)]
pub enum AttrError {
    /// Reading the terminal's current attribute state failed.
    ReadFailed,
    /// Writing an attribute state to the terminal failed.
    WriteFailed,
}

} // verus!
