//! Reading the server's reply, with progress lines taken out of the payload.

use vstd::prelude::*;
use crate::error::Error;

verus! {

/// A buffered reader that can hand the lines of the side channels to a
/// progress handler in place of the payload.
pub trait ExtendedBufRead: Sized {
    /// What is called with each progress line: it is told whether the line
    /// reports an error, and the text of the line.
    type Handler;

    /// The payload that has been filled in and not consumed yet.
    spec fn buffered(&self) -> Vec<u8>;

    /// Whether a progress handler is installed.
    spec fn intercepts(&self) -> bool;

    /// Installs, replaces or clears the progress handler. What is buffered
    /// stays.
    fn set_progress_handler(&mut self, handle_progress: Option<Self::Handler>)
        ensures
            final(self).intercepts() == (handle_progress is Some),
            final(self).buffered()@ == old(self).buffered()@,
    ;

    /// Hands out the buffered payload, reading more only where none is left.
    fn fill_buf(&mut self) -> (r: Result<Vec<u8>, Error>)
        ensures
            final(self).intercepts() == old(self).intercepts(),
            old(self).buffered()@.len() > 0 ==> r is Ok && final(self).buffered()@ == old(
                self,
            ).buffered()@,
            r matches Ok(bytes) ==> bytes@ == final(self).buffered()@,
    ;

    /// Marks the first `amt` bytes of the buffered payload as read.
    fn consume(&mut self, amt: usize)
        requires
            amt <= old(self).buffered()@.len(),
        ensures
            final(self).intercepts() == old(self).intercepts(),
            final(self).buffered()@ == old(self).buffered()@.skip(amt as int),
    ;
}

/// The reader of a server's reply, as it is left when a request has been
/// written to its end.
pub struct ResponseReader<R: ExtendedBufRead> {
    request: Vec<u8>,
    reader: R,
}

impl<R: ExtendedBufRead> ResponseReader<R> {
    /// The bytes of the request that this reply answers, teardown packets
    /// included.
    pub closed spec fn sent(&self) -> Seq<u8> {
        self.request@
    }

    /// The reader that the reply comes from.
    pub closed spec fn inner(&self) -> R {
        self.reader
    }

    /// Joins the bytes of a finished request with the reader of its reply.
    pub fn new(request: Vec<u8>, reader: R) -> (r: Self)
        ensures
            r.sent() == request@,
            r.inner() == reader,
    {
        ResponseReader { request, reader }
    }

    /// The bytes of the request, as they go over the wire.
    pub fn request(&self) -> (bytes: &Vec<u8>)
        ensures
            bytes@ == self.sent(),
    {
        &self.request
    }

    /// Reads payload into `buf`: as much of what is buffered, or, where
    /// nothing is, of what one filling brings, as `buf` has room for. What
    /// does not fit stays buffered.
    pub fn read(&mut self, buf: &mut [u8]) -> (r: Result<usize, Error>)
        ensures
            final(self).sent() == old(self).sent(),
            final(self).intercepts() == old(self).intercepts(),
            final(buf)@.len() == old(buf)@.len(),
            old(self).buffered()@.len() > 0 ==> r is Ok && old(self).buffered()@
                == final(buf)@.take(r->Ok_0 as int) + final(self).buffered()@,
            r matches Ok(n) ==> n <= old(buf)@.len() && (n == old(buf)@.len()
                || final(self).buffered()@.len() == 0) && final(buf)@.skip(n as int) == old(
                buf,
            )@.skip(n as int),
            r is Err ==> final(buf)@ == old(buf)@,
    {
        let filled = match self.fill_buf() {
            Ok(bytes) => bytes,
            Err(e) => {
                return Err(e);
            },
        };
        let n: usize = if filled.len() < buf.len() {
            filled.len()
        } else {
            buf.len()
        };
        let mut i: usize = 0;
        while i < n
            invariant
                i <= n,
                n <= filled.len(),
                n <= buf@.len(),
                buf@.len() == old(buf)@.len(),
                buf@.take(i as int) == filled@.take(i as int),
                buf@.skip(i as int) == old(buf)@.skip(i as int),
            decreases n - i,
        {
            let ghost before = buf@;
            buf[i] = filled[i];
            proof {
                assert(buf@.take(i + 1) =~= before.take(i as int).push(filled@[i as int]));
                assert(filled@.take(i + 1) =~= filled@.take(i as int).push(filled@[i as int]));
                assert(buf@.skip(i + 1) =~= before.skip(i as int).skip(1));
                assert(old(buf)@.skip(i + 1) =~= old(buf)@.skip(i as int).skip(1));
            }
            i = i + 1;
        }
        self.consume(n);
        assert(filled@ =~= filled@.take(n as int) + filled@.skip(n as int));
        Ok(n)
    }

    /// Takes the reader apart into the request's bytes and the inner reader.
    pub fn into_parts(self) -> (parts: (Vec<u8>, R))
        ensures
            parts.0@ == self.sent(),
            parts.1 == self.inner(),
    {
        (self.request, self.reader)
    }
}

impl<R: ExtendedBufRead> ExtendedBufRead for ResponseReader<R> {
    type Handler = R::Handler;

    open spec fn buffered(&self) -> Vec<u8> {
        self.inner().buffered()
    }

    open spec fn intercepts(&self) -> bool {
        self.inner().intercepts()
    }

    fn set_progress_handler(&mut self, handle_progress: Option<Self::Handler>)
        ensures
            final(self).sent() == old(self).sent(),
    {
        self.reader.set_progress_handler(handle_progress)
    }

    fn fill_buf(&mut self) -> (r: Result<Vec<u8>, Error>)
        ensures
            final(self).sent() == old(self).sent(),
    {
        self.reader.fill_buf()
    }

    fn consume(&mut self, amt: usize)
        ensures
            final(self).sent() == old(self).sent(),
    {
        self.reader.consume(amt)
    }
}

} // verus!
