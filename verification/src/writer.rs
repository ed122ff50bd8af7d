//! Writing a request, and what is sent by itself when the writing ends.

use vstd::prelude::*;
use crate::error::Error;
use crate::message::{all_emittable, teardown_bytes, MessageKind, WriteMode};
use crate::packet::{
    accepted, binary_mode, emit_flush, emit_text, enable_binary_mode, enable_text_mode,
    flush_sink, frames, into_sink, new_writer, sink_bytes, write_framed,
};
use crate::reader::{ExtendedBufRead, ResponseReader};

verus! {

/// Whether `write_all` takes `line`: an empty one is nothing to write.
pub open spec fn line_accepted(binary: bool, line: Seq<u8>) -> bool {
    line.len() == 0 || accepted(binary, line)
}

/// The bytes that `write_all` adds to the request for `line`.
pub open spec fn line_frames(binary: bool, line: Seq<u8>) -> Seq<u8> {
    if line.len() == 0 {
        Seq::empty()
    } else {
        frames(binary, line)
    }
}

/// A packet-line writer with a queue of messages that go out when the
/// writing is finished. Nothing finishes it by itself: a writer that is
/// dropped without `finish` has sent none of its queue.
pub struct WritePacketOnDrop {
    inner: git_packetline::Writer<Vec<u8>>,
    on_drop: Vec<MessageKind>,
}

impl WritePacketOnDrop {
    /// The bytes that have been framed so far.
    pub closed spec fn sent(&self) -> Seq<u8> {
        sink_bytes(self.inner)
    }

    /// Whether payload passes through as it is.
    pub closed spec fn binary(&self) -> bool {
        binary_mode(self.inner)
    }

    /// The messages that wait for the end of the writing, in their order.
    pub closed spec fn pending(&self) -> Seq<MessageKind> {
        self.on_drop@
    }

    /// Puts the queue `on_drop` behind `inner`, which keeps its mode and
    /// what it has written.
    pub fn new(inner: git_packetline::Writer<Vec<u8>>, on_drop: Vec<MessageKind>) -> (w: Self)
        ensures
            w.sent() == sink_bytes(inner),
            w.binary() == binary_mode(inner),
            w.pending() == on_drop@,
    {
        WritePacketOnDrop { inner, on_drop }
    }

    /// Frames `buf` as the mode says. A buffer that is refused leaves
    /// everything as it was.
    pub fn write(&mut self, buf: &[u8]) -> (r: Result<usize, std::io::Error>)
        ensures
            final(self).binary() == old(self).binary(),
            final(self).pending() == old(self).pending(),
            r is Ok <==> accepted(old(self).binary(), buf@),
            r matches Ok(n) ==> n == buf@.len() && final(self).sent() == old(self).sent() + frames(
                old(self).binary(),
                buf@,
            ),
            r is Err ==> final(self).sent() == old(self).sent(),
    {
        write_framed(&mut self.inner, buf)
    }

    /// Flushes the sink, which holds all that was written already: nothing
    /// changes.
    pub fn flush(&mut self) -> (r: Result<(), std::io::Error>)
        ensures
            r is Ok,
            final(self).sent() == old(self).sent(),
            final(self).binary() == old(self).binary(),
            final(self).pending() == old(self).pending(),
    {
        flush_sink(&mut self.inner)
    }

    /// Ends the writing: each message of the queue goes out once, first in,
    /// first out, past the framing of the mode, and the sink is handed out.
    pub fn finish(self) -> (out: Vec<u8>)
        requires
            all_emittable(self.pending()),
        ensures
            out@ == self.sent() + teardown_bytes(self.pending()),
    {
        let WritePacketOnDrop { mut inner, on_drop } = self;
        let mut i: usize = 0;
        assert(on_drop@.take(0) =~= Seq::<MessageKind>::empty());
        assert(sink_bytes(inner) + Seq::<u8>::empty() =~= sink_bytes(inner));
        while i < on_drop.len()
            invariant
                i <= on_drop.len(),
                all_emittable(on_drop@),
                sink_bytes(inner) == self.sent() + teardown_bytes(on_drop@.take(i as int)),
            decreases on_drop.len() - i,
        {
            let msg: MessageKind = on_drop[i];
            assert(on_drop@[i as int].emittable());
            let ghost before = sink_bytes(inner);
            match msg {
                MessageKind::Flush => {
                    let _ = emit_flush(&mut inner);
                },
                MessageKind::Text(t) => {
                    let _ = emit_text(&mut inner, t);
                },
            }
            proof {
                let next = on_drop@.take(i + 1);
                assert(next.drop_last() =~= on_drop@.take(i as int));
                assert(next.last() == msg);
                assert(sink_bytes(inner) == before + msg.packet());
                assert(sink_bytes(inner) =~= self.sent() + teardown_bytes(next));
            }
            i = i + 1;
        }
        assert(on_drop@.take(i as int) =~= on_drop@);
        into_sink(inner)
    }
}

/// A writer for one request, which is turned into the reader of the reply
/// when the request is complete. Only `into_read` completes it: a request
/// whose writer is dropped has not ended as the protocol asks.
pub struct RequestWriter<R: ExtendedBufRead> {
    writer: WritePacketOnDrop,
    reader: R,
}

impl<R: ExtendedBufRead> RequestWriter<R> {
    /// The bytes of the request as framed so far.
    pub closed spec fn sent(&self) -> Seq<u8> {
        self.writer.sent()
    }

    /// How write calls are framed.
    pub closed spec fn mode(&self) -> WriteMode {
        if self.writer.binary() {
            WriteMode::Binary
        } else {
            WriteMode::OneLFTerminatedLinePerWriteCall
        }
    }

    /// The messages that are sent when the writing ends, in their order.
    pub closed spec fn pending(&self) -> Seq<MessageKind> {
        self.writer.pending()
    }

    /// The reader of the reply, which waits for the writing to end.
    pub closed spec fn reader(&self) -> R {
        self.reader
    }

    /// A writer that has written nothing yet, frames as `write_mode` says
    /// and sends `on_drop` when it is turned into `reader`.
    pub fn new_from_bufread(reader: R, write_mode: WriteMode, on_drop: Vec<MessageKind>) -> (w:
        Self)
        ensures
            w.sent() == Seq::<u8>::empty(),
            w.mode() == write_mode,
            w.pending() == on_drop@,
            w.reader() == reader,
    {
        let mut writer = new_writer();
        match write_mode {
            WriteMode::Binary => enable_binary_mode(&mut writer),
            WriteMode::OneLFTerminatedLinePerWriteCall => enable_text_mode(&mut writer),
        }
        RequestWriter { writer: WritePacketOnDrop::new(writer, on_drop), reader }
    }

    /// Frames `buf` as the mode says and adds it to the request. In binary
    /// mode the bytes go out as they are, in as many data packets as they
    /// need; in line mode they are one line and one packet. A buffer that is
    /// refused leaves the request as it was.
    pub fn write(&mut self, buf: &[u8]) -> (r: Result<usize, Error>)
        ensures
            final(self).mode() == old(self).mode(),
            final(self).pending() == old(self).pending(),
            final(self).reader() == old(self).reader(),
            r is Ok <==> accepted(old(self).mode().binary(), buf@),
            r matches Ok(n) ==> n == buf@.len() && final(self).sent() == old(self).sent() + frames(
                old(self).mode().binary(),
                buf@,
            ),
            r matches Err(e) ==> e is Io && final(self).sent() == old(self).sent(),
    {
        match self.writer.write(buf) {
            Ok(n) => Ok(n),
            Err(err) => Err(Error::Io { err }),
        }
    }

    /// Writes all of `buf` with one call of `write`; an empty buffer is
    /// nothing to write and succeeds.
    pub fn write_all(&mut self, buf: &[u8]) -> (r: Result<(), Error>)
        ensures
            final(self).mode() == old(self).mode(),
            final(self).pending() == old(self).pending(),
            final(self).reader() == old(self).reader(),
            r is Ok <==> line_accepted(old(self).mode().binary(), buf@),
            r is Ok ==> final(self).sent() == old(self).sent() + line_frames(
                old(self).mode().binary(),
                buf@,
            ),
            r matches Err(e) ==> e is Io && final(self).sent() == old(self).sent(),
    {
        if buf.len() == 0 {
            assert(old(self).sent() + Seq::<u8>::empty() =~= old(self).sent());
            return Ok(());
        }
        match self.write(buf) {
            Ok(_) => Ok(()),
            Err(e) => Err(e),
        }
    }

    /// Flushes the sink, which holds all that was written already: nothing
    /// changes.
    pub fn flush(&mut self) -> (r: Result<(), Error>)
        ensures
            r is Ok,
            final(self).sent() == old(self).sent(),
            final(self).mode() == old(self).mode(),
            final(self).pending() == old(self).pending(),
            final(self).reader() == old(self).reader(),
    {
        match self.writer.flush() {
            Ok(()) => Ok(()),
            Err(err) => Err(Error::Io { err }),
        }
    }

    /// Ends the writing: the pending messages go out once each, first in,
    /// first out, and the reader of the reply is handed out with the bytes
    /// of the whole request. There is no way back to writing.
    pub fn into_read(self) -> (r: ResponseReader<R>)
        requires
            all_emittable(self.pending()),
        ensures
            r.sent() == self.sent() + teardown_bytes(self.pending()),
            r.inner() == self.reader(),
    {
        let RequestWriter { writer, reader } = self;
        ResponseReader::new(writer.finish(), reader)
    }
}

} // verus!
