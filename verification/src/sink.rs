use vstd::prelude::*;

verus! {

/// Error from a wrapped output channel: a write or flush was refused.
#[derive(Clone, Copy, PartialEq, Eq, Debug)]
pub struct SinkError;

/// An output channel that accepts byte writes and flush requests.
///
/// The guard forwards writes to such a channel unchanged; `taken()` is the
/// sequence of bytes the channel has accepted so far, and `accepts()` says
/// whether the channel is currently accepting writes. A write lands whole or
/// not at all.
pub trait ByteSink: Sized {
    /// The bytes this channel has accepted so far.
    spec fn taken(&self) -> Seq<u8>;

    /// Whether writes to this channel succeed.
    spec fn accepts(&self) -> bool;

    /// Append `data` to the channel, whole or not at all.
    fn write(&mut self, data: &[u8]) -> (r: Result<usize, SinkError>)
        ensures
            r is Ok <==> old(self).accepts(),
            r is Ok ==> r->Ok_0 as nat == data@.len()
                && final(self).taken() == old(self).taken() + data@,
            r is Err ==> final(self).taken() == old(self).taken(),
            final(self).accepts() == old(self).accepts(),
    ;

    /// Push buffered bytes onward; the accepted bytes do not change.
    fn flush(&mut self) -> (r: Result<(), SinkError>)
        ensures
            r is Ok <==> old(self).accepts(),
            final(self).taken() == old(self).taken(),
            final(self).accepts() == old(self).accepts(),
    ;
}

/// An in-memory channel: every accepted byte lands in a growable buffer.
#[derive(Debug)]
pub struct MemWriter {
    buf: Vec<u8>,
}

impl MemWriter {
    pub fn new() -> (r: MemWriter)
        ensures
            r.taken() == Seq::<u8>::empty(),
            r.accepts(),
    {
        MemWriter { buf: Vec::new() }
    }

    /// The bytes received so far.
    pub fn bytes(&self) -> (r: &Vec<u8>)
        ensures
            r@ == self.taken(),
    {
        &self.buf
    }
}

impl ByteSink for MemWriter {
    closed spec fn taken(&self) -> Seq<u8> {
        self.buf@
    }

    open spec fn accepts(&self) -> bool {
        true
    }

    fn write(&mut self, data: &[u8]) -> (r: Result<usize, SinkError>) {
        let mut i: usize = 0;
        while i < data.len()
            invariant
                i as nat <= data@.len(),
                self.buf@ == old(self).buf@ + data@.take(i as int),
            decreases data@.len() - i as nat,
        {
            self.buf.push(data[i]);
            assert(self.buf@ == old(self).buf@ + data@.take(i + 1));
            i = i + 1;
        }
        assert(data@.take(data@.len() as int) =~= data@);
        Ok(data.len())
    }

    fn flush(&mut self) -> (r: Result<(), SinkError>) {
        Ok(())
    }
}

/// A channel that refuses every write; it never accepts a byte.
#[derive(Debug)]
pub struct FailWriter;

impl ByteSink for FailWriter {
    open spec fn taken(&self) -> Seq<u8> {
        Seq::empty()
    }

    open spec fn accepts(&self) -> bool {
        false
    }

    fn write(&mut self, data: &[u8]) -> (r: Result<usize, SinkError>) {
        Err(SinkError)
    }

    fn flush(&mut self) -> (r: Result<(), SinkError>) {
        Err(SinkError)
    }
}

} // verus!
