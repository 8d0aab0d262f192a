//! The writer side of a frame in shared memory.
use crate::fast_io::{ByteSink, ByteWriter};
use crate::shared_buffer::PartialWriteState;
use vstd::prelude::*;

verus! {

/// A `ByteSink` over the frame that the producer is preparing.
///
/// `state` says which slot of the ring the frame will be published in;
/// the bytes go into `frame`, that slot's memory.
pub struct TranscriptWriteStateResource<'a> {
    pub state: PartialWriteState,
    pub writer: ByteWriter<'a>,
}

impl<'a> TranscriptWriteStateResource<'a> {
    /// Start writing a prepared frame at its beginning.
    pub fn new(state: PartialWriteState, frame: &'a mut [u8]) -> (w: Self)
        ensures
            w.state == state,
            w.writer.buf@ == old(frame)@,
            w.writer.pos == 0,
            final(frame)@ == final(w.writer.buf)@,
    {
        TranscriptWriteStateResource { state, writer: ByteWriter::new(frame) }
    }

    /// How many bytes of the frame have been written.
    pub fn position(&self) -> (p: usize)
        ensures
            p == self.writer.pos,
    {
        self.writer.position()
    }
}

impl<'a> ByteSink for TranscriptWriteStateResource<'a> {
    open spec fn sink_buffer(&self) -> Seq<u8> {
        self.writer.buf@
    }

    open spec fn sink_pos(&self) -> nat {
        self.writer.pos as nat
    }

    fn put_bytes(&mut self, src: &[u8])
        ensures
            final(final(self).writer.buf)@ == final(old(self).writer.buf)@,
            final(self).state == old(self).state,
    {
        self.writer.put_bytes(src);
    }
}

} // verus!
