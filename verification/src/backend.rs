use vstd::prelude::*;
use crate::AttrError;
use crate::sink::ByteSink;

verus! {

/// A terminal attribute control backend: the platform-specific capability to
/// read the terminal's current attribute state, derive a raw variant of a
/// state, apply a state, and re-apply a previously captured state.
///
/// Two kinds of backend share this contract: structure-based ones, which
/// read and write an attribute snapshot through an attribute-control call and
/// leave the channel alone, and sequence-based ones, whose snapshot is
/// trivial and whose mode switches are fixed byte sequences sent through the
/// channel (`enter_bytes()` / `exit_bytes()`).
///
/// A backend whose terminal is real operating-system state cannot model that
/// state; one whose terminal lives in the backend value itself can. `models()`
/// says which kind this is: where it holds, `terminal()`, `capture_ok()`,
/// `apply_ok(..)` and `restore_count()` describe the modeled terminal, and the
/// contracts below pin every transition of it.
pub trait AttrBackend<S: ByteSink>: Sized {
    /// An attribute snapshot: the full configuration of the terminal at a
    /// point in time, captured only to be re-applied later.
    type Snap;

    /// Whether this backend's value models its terminal's attribute state.
    spec fn models() -> bool;

    /// Whether the channel alone decides this backend's outcomes: such a
    /// backend reads no terminal state, so capturing always succeeds, and it
    /// can fail only on a write error to the channel itself.
    spec fn channel_decides() -> bool;

    /// The modeled terminal attribute state (meaningful only when `models()`).
    spec fn terminal(&self) -> Self::Snap;

    /// The raw variant this backend derives from a snapshot.
    spec fn raw_of(s: Self::Snap) -> Self::Snap;

    /// Bytes `apply` sends through the channel; empty for structure backends.
    spec fn enter_bytes() -> Seq<u8>;

    /// Bytes `restore` sends through the channel; empty for structure backends.
    spec fn exit_bytes() -> Seq<u8>;

    /// How many restorations have run (meaningful only when `models()`).
    spec fn restore_count(&self) -> nat;

    /// Whether capturing succeeds (meaningful only when `models()`).
    spec fn capture_ok(&self) -> bool;

    /// Whether applying `s` succeeds (meaningful only when `models()`).
    spec fn apply_ok(&self, s: Self::Snap) -> bool;

    /// Read the terminal's current attribute state. Fails with `ReadFailed`;
    /// nothing is changed either way.
    fn capture(&self) -> (r: Result<Self::Snap, AttrError>)
        ensures
            r is Err ==> r->Err_0 == AttrError::ReadFailed,
            Self::channel_decides() ==> r is Ok,
            Self::models() ==> ((r is Ok) <==> self.capture_ok()),
            Self::models() && r is Ok ==> r->Ok_0 == self.terminal(),
    ;

    /// Produce a snapshot with canonical raw-mode flags applied. Pure; never
    /// fails.
    fn derive_raw(&self, snap: &Self::Snap) -> (r: Self::Snap)
        ensures
            Self::models() ==> r == Self::raw_of(*snap),
    ;

    /// Write a snapshot to the terminal, whole or not at all: on failure the
    /// terminal state and the channel are exactly as they were.
    fn apply(&mut self, snap: &Self::Snap, chan: &mut S) -> (r: Result<(), AttrError>)
        ensures
            r is Err ==> r->Err_0 == AttrError::WriteFailed,
            Self::channel_decides() ==> ((r is Ok) <==> old(chan).accepts()),
            r is Ok ==> final(chan).taken() == old(chan).taken() + Self::enter_bytes(),
            r is Err ==> final(chan).taken() == old(chan).taken(),
            final(chan).accepts() == old(chan).accepts(),
            final(self).restore_count() == old(self).restore_count(),
            Self::models() ==> ((r is Ok) <==> old(self).apply_ok(*snap)),
            Self::models() && r is Ok ==> final(self).terminal() == *snap,
            Self::models() && r is Err ==> final(self).terminal() == old(self).terminal(),
            Self::models() ==> final(self).capture_ok() == old(self).capture_ok(),
            Self::models() ==> forall|s: Self::Snap|
                #![trigger final(self).apply_ok(s)]
                final(self).apply_ok(s) == old(self).apply_ok(s),
    ;

    /// Best-effort re-application of a previously captured snapshot: a
    /// failure is absorbed, never propagated. On an accepting channel the
    /// complementary exit sequence goes through whole; on a refusing one the
    /// channel is untouched.
    fn restore(&mut self, snap: &Self::Snap, chan: &mut S)
        ensures
            old(chan).accepts() ==> final(chan).taken()
                == old(chan).taken() + Self::exit_bytes(),
            !old(chan).accepts() ==> final(chan).taken() == old(chan).taken(),
            final(chan).accepts() == old(chan).accepts(),
            Self::models() ==> final(self).terminal() == *snap,
            Self::models() && old(self).restore_count() < u64::MAX as nat ==>
                final(self).restore_count() == old(self).restore_count() + 1,
            Self::models() ==> final(self).capture_ok() == old(self).capture_ok(),
            Self::models() ==> forall|s: Self::Snap|
                #![trigger final(self).apply_ok(s)]
                final(self).apply_ok(s) == old(self).apply_ok(s),
    ;
}

} // verus!
