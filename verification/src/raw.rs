use vstd::prelude::*;
use crate::AttrError;
use crate::backend::AttrBackend;
use crate::sink::{ByteSink, SinkError};

verus! {

/// A failed conversion into raw mode: the error, and the channel and backend
/// handed back untouched so the caller can fall back to non-raw interaction.
#[derive(Debug)]
pub struct RawModeFailure<S, B> {
    pub error: AttrError,
    pub output: S,
    pub backend: B,
}

/// A terminal restorer: couples an owned output channel with the attribute
/// snapshot captured immediately before its own raw-mode activation, and
/// re-applies that snapshot exactly once, when `release` or `restore_now`
/// is called. The release is explicit: a guard merely dropped restores
/// nothing, so hold it until the raw-mode session is over and then release
/// it (or wrap it in a destructor outside the verified world that does so).
///
/// Writes pass through to the channel unchanged; the guard adds no buffering
/// or transformation of its own.
///
/// The terminal's attribute state is one process-wide resource mutated by
/// side effect. The guard adds no locking or reentrancy detection: of two
/// overlapping guards, the restoration that runs last wins, which may not
/// match the nesting a caller expects.
pub struct RawTerminal<S: ByteSink, B: AttrBackend<S>> {
    output: S,
    backend: B,
    prev: B::Snap,
    restored: bool,
}

impl<S: ByteSink, B: AttrBackend<S>> RawTerminal<S, B> {
    /// The bytes the wrapped channel has accepted so far.
    pub closed spec fn output_taken(&self) -> Seq<u8> {
        self.output.taken()
    }

    /// Whether the wrapped channel accepts writes.
    pub closed spec fn output_accepts(&self) -> bool {
        self.output.accepts()
    }

    /// The snapshot captured at creation: the terminal's pre-raw state.
    pub closed spec fn snapshot(&self) -> B::Snap {
        self.prev
    }

    /// Whether this guard has already run its restoration.
    pub closed spec fn is_restored(&self) -> bool {
        self.restored
    }

    /// The backend as the guard holds it.
    pub closed spec fn backend_view(&self) -> B {
        self.backend
    }

    /// Forward a write to the wrapped channel, unchanged.
    pub fn write(&mut self, data: &[u8]) -> (r: Result<usize, SinkError>)
        ensures
            r is Ok <==> old(self).output_accepts(),
            r is Ok ==> r->Ok_0 as nat == data@.len()
                && final(self).output_taken() == old(self).output_taken() + data@,
            r is Err ==> final(self).output_taken() == old(self).output_taken(),
            final(self).output_accepts() == old(self).output_accepts(),
            final(self).snapshot() == old(self).snapshot(),
            final(self).is_restored() == old(self).is_restored(),
            final(self).backend_view() == old(self).backend_view(),
    {
        self.output.write(data)
    }

    /// Forward a flush to the wrapped channel, unchanged.
    pub fn flush(&mut self) -> (r: Result<(), SinkError>)
        ensures
            r is Ok <==> old(self).output_accepts(),
            final(self).output_taken() == old(self).output_taken(),
            final(self).output_accepts() == old(self).output_accepts(),
            final(self).snapshot() == old(self).snapshot(),
            final(self).is_restored() == old(self).is_restored(),
            final(self).backend_view() == old(self).backend_view(),
    {
        self.output.flush()
    }

    /// Borrow the wrapped channel.
    pub fn output(&self) -> (r: &S)
        ensures
            r.taken() == self.output_taken(),
            r.accepts() == self.output_accepts(),
    {
        &self.output
    }

    /// Borrow the wrapped channel mutably: whatever the caller does through
    /// the borrow lands on the channel, and on nothing else of the guard.
    pub fn output_mut(&mut self) -> (r: &mut S)
        ensures
            r.taken() == old(self).output_taken(),
            r.accepts() == old(self).output_accepts(),
            final(self).output_taken() == final(r).taken(),
            final(self).output_accepts() == final(r).accepts(),
            final(self).snapshot() == old(self).snapshot(),
            final(self).is_restored() == old(self).is_restored(),
            final(self).backend_view() == old(self).backend_view(),
    {
        &mut self.output
    }

    /// Run the restoration now, if it has not run yet. A guard restores at
    /// most once: on a guard that has already restored, this changes nothing
    /// at all.
    pub fn restore_now(&mut self)
        ensures
            final(self).is_restored(),
            final(self).snapshot() == old(self).snapshot(),
            old(self).is_restored() ==> *final(self) == *old(self),
            !old(self).is_restored() ==> {
                &&& old(self).output_accepts() ==> final(self).output_taken()
                    == old(self).output_taken() + B::exit_bytes()
                &&& !old(self).output_accepts() ==> final(self).output_taken()
                    == old(self).output_taken()
                &&& final(self).output_accepts() == old(self).output_accepts()
                &&& B::models() ==> final(self).backend_view().terminal() == old(self).snapshot()
                &&& B::models() && old(self).backend_view().restore_count() < u64::MAX as nat
                    ==> final(self).backend_view().restore_count()
                        == old(self).backend_view().restore_count() + 1
                &&& B::models() ==> final(self).backend_view().capture_ok()
                    == old(self).backend_view().capture_ok()
            },
    {
        if !self.restored {
            self.backend.restore(&self.prev, &mut self.output);
            self.restored = true;
        }
    }

    /// Release the guard: restore the captured state (unless already
    /// restored) and hand the channel and the backend back.
    pub fn release(self) -> (r: (S, B))
        ensures
            r.0.accepts() == self.output_accepts(),
            self.is_restored() ==> r.0.taken() == self.output_taken()
                && r.1 == self.backend_view(),
            !self.is_restored() ==> {
                &&& self.output_accepts() ==> r.0.taken()
                    == self.output_taken() + B::exit_bytes()
                &&& !self.output_accepts() ==> r.0.taken() == self.output_taken()
                &&& B::models() ==> r.1.terminal() == self.snapshot()
                &&& B::models() && self.backend_view().restore_count() < u64::MAX as nat
                    ==> r.1.restore_count() == self.backend_view().restore_count() + 1
                &&& B::models() ==> r.1.capture_ok() == self.backend_view().capture_ok()
            },
    {
        let mut this = self;
        this.restore_now();
        let RawTerminal { output, backend, .. } = this;
        (output, backend)
    }
}

/// Channels which can be converted into raw mode.
pub trait IntoRawMode<B>: ByteSink where B: AttrBackend<Self> {
    /// Switch to raw mode: capture the terminal's current attribute state,
    /// derive the raw variant, apply it, and on success wrap the channel in a
    /// guard that owns the pre-raw snapshot.
    ///
    /// Raw mode means input is delivered unprocessed: it is not echoed, not
    /// line-buffered, and control characters generate no signals. Output is
    /// not modified in any way.
    ///
    /// A failed capture or a failed application propagates as an error, and
    /// the terminal is left exactly as it was before the call: nothing is
    /// there to roll back.
    fn into_raw_mode(self, backend: B) -> (r: Result<RawTerminal<Self, B>, RawModeFailure<Self, B>>)
        ensures
            B::channel_decides() ==> ((r is Ok) <==> self.accepts()),
            match r {
                Ok(g) => {
                    &&& !g.is_restored()
                    &&& g.output_taken() == self.taken() + B::enter_bytes()
                    &&& g.output_accepts() == self.accepts()
                    &&& g.backend_view().restore_count() == backend.restore_count()
                    &&& B::models() ==> {
                        &&& backend.capture_ok()
                        &&& backend.apply_ok(B::raw_of(backend.terminal()))
                        &&& g.snapshot() == backend.terminal()
                        &&& g.backend_view().terminal() == B::raw_of(backend.terminal())
                        &&& g.backend_view().capture_ok() == backend.capture_ok()
                    }
                },
                Err(f) => {
                    &&& (f.error == AttrError::ReadFailed || f.error == AttrError::WriteFailed)
                    &&& B::channel_decides() ==> f.error == AttrError::WriteFailed
                    &&& f.output.taken() == self.taken()
                    &&& f.output.accepts() == self.accepts()
                    &&& f.backend.restore_count() == backend.restore_count()
                    &&& B::models() ==> {
                        &&& !(backend.capture_ok()
                            && backend.apply_ok(B::raw_of(backend.terminal())))
                        &&& (f.error == AttrError::ReadFailed <==> !backend.capture_ok())
                        &&& f.backend.terminal() == backend.terminal()
                        &&& f.backend.capture_ok() == backend.capture_ok()
                        &&& forall|s: B::Snap|
                            #![trigger f.backend.apply_ok(s)]
                            f.backend.apply_ok(s) == backend.apply_ok(s)
                    }
                },
            },
    ;
}

impl<S: ByteSink, B: AttrBackend<S>> IntoRawMode<B> for S {
    fn into_raw_mode(self, backend: B) -> (r: Result<RawTerminal<S, B>, RawModeFailure<S, B>>) {
        let mut back = backend;
        let prev = match back.capture() {
            Ok(s) => s,
            Err(e) => {
                return Err(RawModeFailure { error: e, output: self, backend: back });
            },
        };
        let raw = back.derive_raw(&prev);
        let mut out = self;
        match back.apply(&raw, &mut out) {
            Ok(_) => Ok(RawTerminal { output: out, backend: back, prev, restored: false }),
            Err(e) => Err(RawModeFailure { error: e, output: out, backend: back }),
        }
    }
}

/// Round trip: a successful conversion hands out a guard holding the snapshot
/// captured from the terminal's pre-raw state, and releasing that guard
/// re-applies the snapshot, so a modeled terminal ends bit-identical to where
/// it began.
pub proof fn lemma_round_trip<S: ByteSink, B: AttrBackend<S>>(
    before: B,
    g: RawTerminal<S, B>,
    after: B,
)
    requires
        B::models(),
        // what a successful `into_raw_mode(_, before)` says of its guard
        g.snapshot() == before.terminal(),
        // what `release` (or `restore_now`) says of the backend it leaves
        after.terminal() == g.snapshot(),
    ensures
        after.terminal() == before.terminal(),
{
}

} // verus!
