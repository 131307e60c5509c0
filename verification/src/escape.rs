use vstd::prelude::*;
use crate::AttrError;
use crate::backend::AttrBackend;
use crate::sink::ByteSink;

verus! {

/// The control sequence that switches the terminal into raw mode.
pub open spec fn enter_sequence() -> Seq<u8> {
    seq![0x1bu8, 0x5bu8, 0x72u8]
}

/// The complementary control sequence that switches the terminal back.
pub open spec fn exit_sequence() -> Seq<u8> {
    seq![0x1bu8, 0x5bu8, 0x52u8]
}

/// A sequence-based backend for a platform without a readable attribute
/// structure: no prior state exists to capture, so the snapshot is trivial,
/// and the two mode switches are fixed control sequences sent through the
/// wrapped channel itself. Such a backend can fail only on a write error to
/// that channel.
#[derive(Debug)]
pub struct EscapeBackend;

impl EscapeBackend {
    pub fn new() -> (r: EscapeBackend) {
        EscapeBackend
    }
}

/// The enter-raw control sequence as a byte vector.
fn enter_sequence_bytes() -> (r: Vec<u8>)
    ensures
        r@ == enter_sequence(),
{
    let mut bytes: Vec<u8> = Vec::new();
    bytes.push(0x1b);
    bytes.push(0x5bu8);
    bytes.push(0x72u8);
    proof {
        assert(bytes@ =~= enter_sequence());
    }
    bytes
}

/// The exit-raw control sequence as a byte vector.
fn exit_sequence_bytes() -> (r: Vec<u8>)
    ensures
        r@ == exit_sequence(),
{
    let mut bytes: Vec<u8> = Vec::new();
    bytes.push(0x1b);
    bytes.push(0x5bu8);
    bytes.push(0x52u8);
    proof {
        assert(bytes@ =~= exit_sequence());
    }
    bytes
}

impl<S: ByteSink> AttrBackend<S> for EscapeBackend {
    type Snap = ();

    open spec fn models() -> bool {
        false
    }

    open spec fn channel_decides() -> bool {
        true
    }

    open spec fn terminal(&self) -> () {
        ()
    }

    open spec fn raw_of(s: ()) -> () {
        ()
    }

    open spec fn enter_bytes() -> Seq<u8> {
        enter_sequence()
    }

    open spec fn exit_bytes() -> Seq<u8> {
        exit_sequence()
    }

    open spec fn restore_count(&self) -> nat {
        0
    }

    open spec fn capture_ok(&self) -> bool {
        true
    }

    open spec fn apply_ok(&self, s: ()) -> bool {
        true
    }

    fn capture(&self) -> (r: Result<(), AttrError>) {
        Ok(())
    }

    fn derive_raw(&self, snap: &()) -> (r: ()) {
        ()
    }

    fn apply(&mut self, snap: &(), chan: &mut S) -> (r: Result<(), AttrError>) {
        let bytes = enter_sequence_bytes();
        match chan.write(bytes.as_slice()) {
            Ok(_) => Ok(()),
            Err(_) => Err(AttrError::WriteFailed),
        }
    }

    fn restore(&mut self, snap: &(), chan: &mut S) {
        let bytes = exit_sequence_bytes();
        let _ = chan.write(bytes.as_slice());
    }
}

} // verus!
