use rawmode::backend::AttrBackend;
use rawmode::escape::EscapeBackend;
use rawmode::mem::{MemBackend, ATTR_CANON, ATTR_ECHO, ATTR_RAW_CLEARED, ATTR_SIGNALS, ATTR_STRIP};
use rawmode::posix::TermiosBackend;
use rawmode::raw::IntoRawMode;
use rawmode::sink::{ByteSink, FailWriter, MemWriter};
use rawmode::AttrError;

const INITIAL: u64 = ATTR_ECHO | ATTR_CANON | ATTR_SIGNALS | ATTR_STRIP | 0x700;

#[test]
fn test_into_raw_mode() {
    let mut out = MemWriter::new().into_raw_mode(MemBackend::new(INITIAL)).unwrap();

    out.write(b"this is a test, muahhahahah").unwrap();
}

#[test]
fn writes_pass_through_and_restore_runs_once() {
    let chan = MemWriter::new();
    let backend = MemBackend::new(INITIAL);
    let mut guard = chan.into_raw_mode(backend).unwrap();

    let n = guard.write(b"hello").unwrap();
    assert_eq!(n, 5);
    assert_eq!(guard.output().bytes().as_slice(), &b"hello"[..]);

    let (chan, backend) = guard.release();
    assert_eq!(chan.bytes().as_slice(), &b"hello"[..]);
    assert_eq!(backend.restore_calls(), 1);
    assert_eq!(backend.current_attrs(), INITIAL);
}

#[test]
fn capture_failure_reports_read_failed() {
    let chan = MemWriter::new();
    let backend = MemBackend::with_failures(INITIAL, true, false);
    let failure = match chan.into_raw_mode(backend) {
        Ok(_) => panic!("conversion must fail when capturing fails"),
        Err(f) => f,
    };
    assert_eq!(failure.error, AttrError::ReadFailed);
    assert_eq!(failure.backend.restore_calls(), 0);
    assert_eq!(failure.backend.current_attrs(), INITIAL);
}

#[test]
fn apply_failure_leaves_state_untouched() {
    let chan = MemWriter::new();
    let backend = MemBackend::with_failures(INITIAL, false, true);
    let failure = match chan.into_raw_mode(backend) {
        Ok(_) => panic!("conversion must fail when applying fails"),
        Err(f) => f,
    };
    assert_eq!(failure.error, AttrError::WriteFailed);
    assert_eq!(failure.backend.current_attrs(), INITIAL);
    assert_eq!(failure.backend.restore_calls(), 0);
}

#[test]
fn restoration_runs_at_most_once() {
    let chan = MemWriter::new();
    let backend = MemBackend::new(INITIAL);
    let mut guard = chan.into_raw_mode(backend).unwrap();

    guard.restore_now();
    guard.restore_now();
    guard.restore_now();

    let (_, backend) = guard.release();
    assert_eq!(backend.restore_calls(), 1);
    assert_eq!(backend.current_attrs(), INITIAL);
}

#[test]
fn round_trip_restores_initial_attrs() {
    let attrs: u64 = 0xAB5C;
    let backend = MemBackend::new(attrs);
    let guard = MemWriter::new().into_raw_mode(backend).unwrap();
    let (_, backend) = guard.release();
    assert_eq!(backend.current_attrs(), attrs);
}

#[test]
fn raw_attrs_clear_exactly_the_raw_flags() {
    let backend = MemBackend::new(0);
    let raw = <MemBackend as AttrBackend<MemWriter>>::derive_raw(&backend, &0xFF);
    assert_eq!(raw, 0xFF & !ATTR_RAW_CLEARED);
    assert_eq!(raw, 0xF0);
    let raw = <MemBackend as AttrBackend<MemWriter>>::derive_raw(&backend, &INITIAL);
    assert_eq!(raw, 0x700);
}

#[test]
fn guard_output_matches_direct_writes() {
    let mut direct = MemWriter::new();
    direct.write(b"one ").unwrap();
    direct.write(b"two").unwrap();
    direct.flush().unwrap();

    let chan = MemWriter::new();
    let mut guard = chan.into_raw_mode(MemBackend::new(INITIAL)).unwrap();
    guard.write(b"one ").unwrap();
    guard.write(b"two").unwrap();
    guard.flush().unwrap();
    let (chan, _) = guard.release();

    assert_eq!(chan.bytes(), direct.bytes());
    assert_eq!(chan.bytes().as_slice(), &b"one two"[..]);
}

#[test]
fn output_mut_reaches_the_wrapped_channel() {
    let mut guard = MemWriter::new().into_raw_mode(MemBackend::new(INITIAL)).unwrap();
    guard.output_mut().write(b"direct").unwrap();
    let (chan, _) = guard.release();
    assert_eq!(chan.bytes().as_slice(), &b"direct"[..]);
}

#[test]
fn mem_writer_accepts_whole_writes() {
    let mut w = MemWriter::new();
    assert_eq!(w.write(b"abc").unwrap(), 3);
    assert_eq!(w.write(b"").unwrap(), 0);
    w.flush().unwrap();
    assert_eq!(w.bytes().as_slice(), &b"abc"[..]);
}

#[test]
fn fail_writer_refuses_writes() {
    let mut w = FailWriter;
    assert!(w.write(b"abc").is_err());
    assert!(w.flush().is_err());
}

#[test]
fn escape_backend_brackets_output_with_sequences() {
    let chan = MemWriter::new();
    let mut guard = chan.into_raw_mode(EscapeBackend::new()).unwrap();
    assert_eq!(guard.output().bytes().as_slice(), &b"\x1b[r"[..]);
    guard.write(b"x").unwrap();
    let (chan, _) = guard.release();
    assert_eq!(chan.bytes().as_slice(), &b"\x1b[rx\x1b[R"[..]);
}

#[test]
fn escape_backend_write_failure_reports_write_failed() {
    let backend = EscapeBackend::new();
    match FailWriter.into_raw_mode(backend) {
        Ok(_) => panic!("a refused write must fail the conversion"),
        Err(f) => assert_eq!(f.error, AttrError::WriteFailed),
    }
}

#[test]
fn structure_backend_works_on_refusing_channel() {
    let mut guard = FailWriter.into_raw_mode(MemBackend::new(INITIAL)).unwrap();
    assert!(guard.write(b"x").is_err());
    let (_, backend) = guard.release();
    assert_eq!(backend.restore_calls(), 1);
    assert_eq!(backend.current_attrs(), INITIAL);
}

#[test]
fn termios_capture_fails_on_bad_descriptor() {
    let chan = MemWriter::new();
    let backend = TermiosBackend::new(-1);
    match chan.into_raw_mode(backend) {
        Ok(_) => panic!("descriptor -1 must not be a terminal"),
        Err(f) => assert_eq!(f.error, AttrError::ReadFailed),
    }
}
