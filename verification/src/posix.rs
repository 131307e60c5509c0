use vstd::prelude::*;
use vstd::pervasive::arbitrary;
use crate::AttrError;
use crate::backend::AttrBackend;
use crate::sink::ByteSink;

verus! {

/// `termios::Termios`: the POSIX terminal attribute structure. Opaque here;
/// a value of it is captured only to be re-applied later.
#[verifier::external_type_specification]
#[verifier::external_body]
pub struct ExTermios(termios::Termios);

/// Relies on `termios::Termios::from_fd` (`tcgetattr`): reads the attribute
/// structure of the terminal behind the descriptor; an error status from the
/// call is reported as a failed read, and nothing is changed by it.
#[verifier::external_body]
fn read_attrs(fd: i32) -> (r: Result<termios::Termios, AttrError>)
    ensures
        r is Err ==> r->Err_0 == AttrError::ReadFailed,
{
    match termios::Termios::from_fd(fd) {
        Ok(t) => Ok(t),
        Err(_) => Err(AttrError::ReadFailed),
    }
}

/// Relies on `termios::cfmakeraw`: switches the canonical raw-mode flags (no
/// echo, no line buffering, no signal characters, eight-bit transparent
/// input) on a copy of the snapshot. The structure is opaque here, so
/// nothing more is stated of the result.
#[verifier::external_body]
fn make_raw(snap: &termios::Termios) -> (r: termios::Termios) {
    let mut t = *snap;
    termios::cfmakeraw(&mut t);
    t
}

/// Relies on `termios::tcsetattr` with `TCSANOW`: writes the snapshot to the
/// terminal behind the descriptor; an error status from the call is reported
/// as a failed write.
#[verifier::external_body]
fn write_attrs(fd: i32, snap: &termios::Termios) -> (r: Result<(), AttrError>)
    ensures
        r is Err ==> r->Err_0 == AttrError::WriteFailed,
{
    match termios::tcsetattr(fd, termios::TCSANOW, snap) {
        Ok(()) => Ok(()),
        Err(_) => Err(AttrError::WriteFailed),
    }
}

/// A structure-based backend over the POSIX terminal-control API. The
/// terminal it controls is operating-system state behind a file descriptor,
/// out of reach of the model (`models()` is false), so the contracts state
/// only what holds of every outcome of the calls.
pub struct TermiosBackend {
    fd: i32,
}

impl TermiosBackend {
    /// The descriptor of the terminal this backend controls.
    pub closed spec fn descriptor(&self) -> i32 {
        self.fd
    }

    /// A backend controlling the terminal behind the given file descriptor.
    pub fn new(fd: i32) -> (r: TermiosBackend)
        ensures
            r.descriptor() == fd,
    {
        TermiosBackend { fd }
    }
}

impl<S: ByteSink> AttrBackend<S> for TermiosBackend {
    type Snap = termios::Termios;

    open spec fn models() -> bool {
        false
    }

    open spec fn channel_decides() -> bool {
        false
    }

    open spec fn terminal(&self) -> termios::Termios {
        arbitrary()
    }

    open spec fn raw_of(s: termios::Termios) -> termios::Termios {
        arbitrary()
    }

    open spec fn enter_bytes() -> Seq<u8> {
        Seq::empty()
    }

    open spec fn exit_bytes() -> Seq<u8> {
        Seq::empty()
    }

    open spec fn restore_count(&self) -> nat {
        0
    }

    open spec fn capture_ok(&self) -> bool {
        arbitrary()
    }

    open spec fn apply_ok(&self, s: termios::Termios) -> bool {
        arbitrary()
    }

    fn capture(&self) -> (r: Result<termios::Termios, AttrError>) {
        read_attrs(self.fd)
    }

    fn derive_raw(&self, snap: &termios::Termios) -> (r: termios::Termios) {
        make_raw(snap)
    }

    fn apply(&mut self, snap: &termios::Termios, chan: &mut S) -> (r: Result<(), AttrError>) {
        proof {
            assert(old(chan).taken() + Seq::<u8>::empty() =~= old(chan).taken());
        }
        write_attrs(self.fd, snap)
    }

    fn restore(&mut self, snap: &termios::Termios, chan: &mut S) {
        proof {
            assert(old(chan).taken() + Seq::<u8>::empty() =~= old(chan).taken());
        }
        let _ = write_attrs(self.fd, snap);
    }
}

} // verus!
