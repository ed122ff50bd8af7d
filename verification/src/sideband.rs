//! Side channels in a reply: which lines are payload, and which go to the
//! progress handler instead.

use vstd::prelude::*;
use vstd::slice::{slice_subrange, slice_to_vec};
use crate::error::Error;
use crate::packet::strip_newline;

verus! {

/// The channels that a server multiplexes into its reply.
#[derive(PartialEq, Eq, Debug, Hash, Clone, Copy, Structural)]
pub enum Band {
    /// The payload itself.
    Data,
    /// Progress, for people to read.
    Progress,
    /// An error, for people to read.
    Error,
}

/// The channel that the first byte of a line names.
pub open spec fn band_of(id: u8) -> Option<Band> {
    if id == 1 {
        Some(Band::Data)
    } else if id == 2 {
        Some(Band::Progress)
    } else if id == 3 {
        Some(Band::Error)
    } else {
        None
    }
}

/// `git_packetline::PacketLineRef::decode_band` on a data line: the first
/// byte names the channel, and any byte but 1, 2 and 3 is an error, handed
/// on as an `std::io::Error`. An empty line is left out, as the call
/// indexes the first byte.
#[verifier::external_body]
fn decode_band(line: &[u8]) -> (r: Result<Band, std::io::Error>)
    requires
        line@.len() > 0,
    ensures
        match band_of(line@[0]) {
            Some(band) => r matches Ok(found) && found == band,
            None => r is Err,
        },
{
    match git_packetline::PacketLineRef::Data(line).decode_band() {
        Ok(git_packetline::BandRef::Data(_)) => Ok(Band::Data),
        Ok(git_packetline::BandRef::Progress(_)) => Ok(Band::Progress),
        Ok(git_packetline::BandRef::Error(_)) => Ok(Band::Error),
        Err(err) => Err(std::io::Error::new(std::io::ErrorKind::Other, err)),
    }
}

/// `text` without its last byte where that is a line feed.
pub fn without_newline<'a>(text: &'a [u8]) -> (cut: &'a [u8])
    ensures
        cut@ == strip_newline(text@),
{
    let n: usize = text.len();
    if n > 0 && text[n - 1] == 10u8 {
        let cut = slice_subrange(text, 0, n - 1);
        assert(cut@ =~= text@.drop_last());
        cut
    } else {
        text
    }
}

/// What became of a line.
#[derive(PartialEq, Eq, Debug, Clone)]
pub enum Routed {
    /// It is payload, and buffered now.
    Payload,
    /// It was payload without a byte in it, and is passed over.
    Skipped,
    /// It is for the progress handler, which is to be called with it once.
    Progress { is_error: bool, text: Vec<u8> },
}

/// What a line is to a reader, by the channel it came on.
pub enum Route {
    Payload(Seq<u8>),
    Skipped,
    Progress { is_error: bool, text: Seq<u8> },
    Invalid,
}

/// Where a data line goes. Without a handler every line is payload as it
/// is. With one, the first byte names the channel: payload is what follows
/// it, and progress and errors are text for the handler, without their
/// line feed.
pub open spec fn route_of(intercepts: bool, line: Seq<u8>) -> Route {
    if !intercepts {
        Route::Payload(line)
    } else {
        match band_of(line[0]) {
            Some(Band::Data) => if line.len() == 1 {
                Route::Skipped
            } else {
                Route::Payload(line.skip(1))
            },
            Some(Band::Progress) => Route::Progress {
                is_error: false,
                text: strip_newline(line.skip(1)),
            },
            Some(Band::Error) => Route::Progress {
                is_error: true,
                text: strip_newline(line.skip(1)),
            },
            None => Route::Invalid,
        }
    }
}

/// The payload of a reply as far as it was read and not consumed, and
/// whether a progress handler takes the side channels.
pub struct SidebandBuffer {
    buf: Vec<u8>,
    intercept: bool,
}

impl SidebandBuffer {
    /// The payload that has been filled in and not consumed yet.
    pub closed spec fn buffered(&self) -> Seq<u8> {
        self.buf@
    }

    /// Whether a progress handler is installed.
    pub closed spec fn intercepts(&self) -> bool {
        self.intercept
    }

    /// A buffer with nothing in it and no handler.
    pub fn new() -> (b: Self)
        ensures
            b.buffered() == Seq::<u8>::empty(),
            !b.intercepts(),
    {
        SidebandBuffer { buf: Vec::new(), intercept: false }
    }

    /// Notes that a handler was installed or cleared. What is buffered
    /// stays.
    pub fn set_intercepts(&mut self, installed: bool)
        ensures
            final(self).intercepts() == installed,
            final(self).buffered() == old(self).buffered(),
    {
        self.intercept = installed;
    }

    /// Tells whether a handler is installed.
    pub fn is_intercepting(&self) -> (on: bool)
        ensures
            on == self.intercepts(),
    {
        self.intercept
    }

    /// The buffered payload.
    pub fn filled(&self) -> (bytes: &Vec<u8>)
        ensures
            bytes@ == self.buffered(),
    {
        &self.buf
    }

    /// Marks the first `amt` bytes of the buffered payload as read.
    pub fn consume(&mut self, amt: usize)
        requires
            amt <= old(self).buffered().len(),
        ensures
            final(self).intercepts() == old(self).intercepts(),
            final(self).buffered() == old(self).buffered().skip(amt as int),
    {
        let rest = slice_to_vec(slice_subrange(self.buf.as_slice(), amt, self.buf.len()));
        assert(rest@ =~= self.buf@.skip(amt as int));
        self.buf = rest;
    }

    /// Takes the next data line of the reply, which is read when nothing
    /// is buffered. The line becomes the buffered payload, or is passed
    /// over, or comes back as the one call that the progress handler is
    /// owed; a line on no known channel is an error and changes nothing.
    pub fn accept_line(&mut self, line: &[u8]) -> (r: Result<Routed, Error>)
        requires
            old(self).buffered().len() == 0,
            line@.len() > 0,
        ensures
            final(self).intercepts() == old(self).intercepts(),
            match route_of(old(self).intercepts(), line@) {
                Route::Payload(bytes) => r matches Ok(Routed::Payload) && final(self).buffered()
                    == bytes,
                Route::Skipped => r matches Ok(Routed::Skipped) && final(self).buffered() == old(
                    self,
                ).buffered(),
                Route::Progress { is_error, text } => final(self).buffered() == old(
                    self,
                ).buffered() && (r matches Ok(Routed::Progress { is_error: e, text: t }) && e
                    == is_error && t@ == text),
                Route::Invalid => final(self).buffered() == old(self).buffered() && (
                r matches Err(e) && e is Io),
            },
    {
        if !self.intercept {
            self.buf = slice_to_vec(line);
            return Ok(Routed::Payload);
        }
        let band = match decode_band(line) {
            Ok(band) => band,
            Err(err) => {
                return Err(Error::Io { err });
            },
        };
        let rest = slice_subrange(line, 1, line.len());
        assert(rest@ =~= line@.skip(1));
        match band {
            Band::Data => {
                if rest.len() == 0 {
                    Ok(Routed::Skipped)
                } else {
                    self.buf = slice_to_vec(rest);
                    Ok(Routed::Payload)
                }
            },
            Band::Progress => Ok(
                Routed::Progress { is_error: false, text: slice_to_vec(without_newline(rest)) },
            ),
            Band::Error => Ok(
                Routed::Progress { is_error: true, text: slice_to_vec(without_newline(rest)) },
            ),
        }
    }
}

/// With a handler installed, a line is for the handler exactly when it
/// came on the progress or the error channel, and payload lines never
/// are; without one, no line is for the handler, and each is payload in
/// full.
pub proof fn lemma_progress_only_with_handler(intercepts: bool, line: Seq<u8>)
    requires
        line.len() > 0,
    ensures
        route_of(intercepts, line) is Progress <==> intercepts && (line[0] == 2 || line[0] == 3),
        !intercepts ==> route_of(intercepts, line) == Route::Payload(line),
        intercepts && line[0] == 1 && line.len() > 1 ==> route_of(intercepts, line)
            == Route::Payload(line.skip(1)),
{
}

} // verus!
