use vstd::prelude::*;
use crate::AttrError;
use crate::backend::AttrBackend;
use crate::sink::ByteSink;

verus! {

/// Input echo flag of the modeled attribute word.
pub const ATTR_ECHO: u64 = 0x1;
/// Canonical (line-buffered) input flag.
pub const ATTR_CANON: u64 = 0x2;
/// Signal-generating control characters flag.
pub const ATTR_SIGNALS: u64 = 0x4;
/// Strip-input-to-seven-bits flag; raw mode is eight-bit transparent.
pub const ATTR_STRIP: u64 = 0x8;

/// The flags a raw attribute word has cleared.
pub const ATTR_RAW_CLEARED: u64 = ATTR_ECHO | ATTR_CANON | ATTR_SIGNALS | ATTR_STRIP;

/// The raw variant of an attribute word: the same word with echo, canonical
/// input, signal characters and seven-bit stripping switched off.
pub open spec fn raw_word(s: u64) -> u64 {
    s & !ATTR_RAW_CLEARED
}

/// A structure-based backend whose terminal lives in the backend value
/// itself: the attribute word `attr_word()` stands for the one process-wide
/// terminal state. Because that state is in reach of the model, every
/// transition of it is pinned by the `AttrBackend` contract, and failures can
/// be injected to exercise the error paths.
#[derive(Debug)]
pub struct MemBackend {
    attrs: u64,
    fail_capture: bool,
    fail_apply: bool,
    restores_run: u64,
}

impl MemBackend {
    /// The modeled terminal attribute word.
    pub closed spec fn attr_word(&self) -> u64 {
        self.attrs
    }

    /// Whether capturing is set to report failure.
    pub closed spec fn capture_fails(&self) -> bool {
        self.fail_capture
    }

    /// Whether applying is set to report failure.
    pub closed spec fn apply_fails(&self) -> bool {
        self.fail_apply
    }

    /// How many restorations have run.
    pub closed spec fn restores(&self) -> nat {
        self.restores_run as nat
    }

    /// A backend over the given initial attribute word; every call succeeds.
    pub fn new(attrs: u64) -> (r: MemBackend)
        ensures
            r.attr_word() == attrs,
            !r.capture_fails(),
            !r.apply_fails(),
            r.restores() == 0,
    {
        MemBackend { attrs, fail_capture: false, fail_apply: false, restores_run: 0 }
    }

    /// A backend with injected failures: capturing and applying report
    /// failure as the two flags say.
    pub fn with_failures(attrs: u64, fail_capture: bool, fail_apply: bool) -> (r: MemBackend)
        ensures
            r.attr_word() == attrs,
            r.capture_fails() == fail_capture,
            r.apply_fails() == fail_apply,
            r.restores() == 0,
    {
        MemBackend { attrs, fail_capture, fail_apply, restores_run: 0 }
    }

    /// The attribute word the modeled terminal is in right now.
    pub fn current_attrs(&self) -> (r: u64)
        ensures
            r == self.attr_word(),
    {
        self.attrs
    }

    /// How many times a restoration has run on this backend.
    pub fn restore_calls(&self) -> (r: u64)
        ensures
            r as nat == self.restores(),
    {
        self.restores_run
    }
}

impl<S: ByteSink> AttrBackend<S> for MemBackend {
    type Snap = u64;

    open spec fn models() -> bool {
        true
    }

    open spec fn channel_decides() -> bool {
        false
    }

    open spec fn terminal(&self) -> u64 {
        self.attr_word()
    }

    open spec fn raw_of(s: u64) -> u64 {
        raw_word(s)
    }

    open spec fn enter_bytes() -> Seq<u8> {
        Seq::empty()
    }

    open spec fn exit_bytes() -> Seq<u8> {
        Seq::empty()
    }

    open spec fn restore_count(&self) -> nat {
        self.restores()
    }

    open spec fn capture_ok(&self) -> bool {
        !self.capture_fails()
    }

    open spec fn apply_ok(&self, s: u64) -> bool {
        !self.apply_fails()
    }

    fn capture(&self) -> (r: Result<u64, AttrError>) {
        if self.fail_capture {
            Err(AttrError::ReadFailed)
        } else {
            Ok(self.attrs)
        }
    }

    fn derive_raw(&self, snap: &u64) -> (r: u64) {
        *snap & !ATTR_RAW_CLEARED
    }

    fn apply(&mut self, snap: &u64, chan: &mut S) -> (r: Result<(), AttrError>) {
        proof {
            assert(old(chan).taken() + Seq::<u8>::empty() =~= old(chan).taken());
        }
        if self.fail_apply {
            Err(AttrError::WriteFailed)
        } else {
            self.attrs = *snap;
            Ok(())
        }
    }

    fn restore(&mut self, snap: &u64, chan: &mut S) {
        proof {
            assert(old(chan).taken() + Seq::<u8>::empty() =~= old(chan).taken());
        }
        self.attrs = *snap;
        if self.restores_run < u64::MAX {
            self.restores_run = self.restores_run + 1;
        }
    }
}

} // verus!
