//! Packet-line framing as done by `git_packetline`, and what it puts into an
//! in-memory sink.

use vstd::prelude::*;

verus! {

/// `git_packetline::Writer`, which frames what is written to it and hands
/// it on to its sink. Nothing inside it is visible here.
#[verifier::external_type_specification]
#[verifier::external_body]
#[verifier::reject_recursive_types(T)]
pub struct ExWriter<T>(git_packetline::Writer<T>);

/// `std::io::Error`, which is carried through as it comes.
#[verifier::external_type_specification]
#[verifier::external_body]
pub struct ExIoError(std::io::Error);

// The bytes that the writer has put into its sink so far.
pub uninterp spec fn sink_bytes(w: git_packetline::Writer<Vec<u8>>) -> Seq<u8>;

// Whether the writer passes payload through as it is (true) or frames each
// write as a line of text (false).
pub uninterp spec fn binary_mode(w: git_packetline::Writer<Vec<u8>>) -> bool;

/// The most payload bytes that one packet can carry.
pub const MAX_DATA_LEN: usize = 65516;

/// The lower-case hexadecimal digit of `n`, for `0 <= n < 16`.
pub open spec fn hex_digit(n: nat) -> u8 {
    if n < 10 {
        (48 + n) as u8
    } else {
        (87 + n) as u8
    }
}

/// The four hexadecimal digits that open a packet of `n` bytes in all.
pub open spec fn length_prefix(n: nat) -> Seq<u8> {
    seq![
        hex_digit(n / 4096 % 16),
        hex_digit(n / 256 % 16),
        hex_digit(n / 16 % 16),
        hex_digit(n % 16),
    ]
}

/// A data packet: the length prefix, then the payload untouched.
pub open spec fn data_packet(data: Seq<u8>) -> Seq<u8> {
    length_prefix(data.len() + 4) + data
}

/// A text packet: the length prefix, the text, and one line feed.
pub open spec fn text_packet(text: Seq<u8>) -> Seq<u8> {
    length_prefix(text.len() + 5) + text + seq![10u8]
}

/// The flush packet, `0000`.
pub open spec fn flush_packet() -> Seq<u8> {
    seq![48u8, 48u8, 48u8, 48u8]
}

/// `text` without its last byte where that is a line feed.
pub open spec fn strip_newline(text: Seq<u8>) -> Seq<u8> {
    if text.len() > 0 && text.last() == 10u8 {
        text.drop_last()
    } else {
        text
    }
}

/// What binary mode makes of one write: as many data packets as it takes,
/// each but the last filled to the limit.
pub open spec fn binary_frames(buf: Seq<u8>) -> Seq<u8>
    decreases buf.len(),
{
    if buf.len() == 0 {
        Seq::empty()
    } else if buf.len() <= MAX_DATA_LEN {
        data_packet(buf)
    } else {
        data_packet(buf.take(MAX_DATA_LEN as int)) + binary_frames(buf.skip(MAX_DATA_LEN as int))
    }
}

/// Whether one write of `buf` is taken: never an empty one, and in line mode
/// only what fits one packet together with its line feed.
pub open spec fn accepted(binary: bool, buf: Seq<u8>) -> bool {
    buf.len() > 0 && (binary || buf.len() < MAX_DATA_LEN)
}

/// The bytes that one accepted write of `buf` adds to the sink.
pub open spec fn frames(binary: bool, buf: Seq<u8>) -> Seq<u8> {
    if binary {
        binary_frames(buf)
    } else {
        text_packet(buf)
    }
}

/// The payload of `n` bytes that binary mode has framed into `wire`: what
/// each packet holds behind its four bytes of length.
pub open spec fn carried(wire: Seq<u8>, n: nat) -> Seq<u8>
    decreases n,
{
    if n == 0 {
        Seq::empty()
    } else if n <= MAX_DATA_LEN {
        wire.subrange(4, n + 4 as int)
    } else {
        wire.subrange(4, 4 + MAX_DATA_LEN) + carried(
            wire.skip(4 + MAX_DATA_LEN),
            (n - MAX_DATA_LEN) as nat,
        )
    }
}

/// Binary mode never alters payload: what the packets of one write carry,
/// put together, is the buffer that was written.
pub proof fn lemma_binary_mode_keeps_payload(buf: Seq<u8>)
    ensures
        carried(binary_frames(buf), buf.len()) == buf,
    decreases buf.len(),
{
    if buf.len() == 0 {
        assert(buf =~= Seq::<u8>::empty());
    } else if buf.len() <= MAX_DATA_LEN {
        assert(binary_frames(buf).subrange(4, buf.len() + 4 as int) =~= buf);
    } else {
        let head = buf.take(MAX_DATA_LEN as int);
        let tail = buf.skip(MAX_DATA_LEN as int);
        let wire = binary_frames(buf);
        lemma_binary_mode_keeps_payload(tail);
        assert(wire.subrange(4, 4 + MAX_DATA_LEN) =~= head);
        assert(wire.skip(4 + MAX_DATA_LEN) =~= binary_frames(tail));
        assert(head + tail =~= buf);
    }
}

/// Line mode makes one packet of one write: its length, the line as it was
/// written, and one line feed.
pub proof fn lemma_line_mode_one_packet(buf: Seq<u8>)
    ensures
        frames(false, buf) == text_packet(buf),
        text_packet(buf).len() == buf.len() + 5,
        text_packet(buf).subrange(0, 4) == length_prefix(buf.len() + 5),
        text_packet(buf).subrange(4, buf.len() + 4 as int) == buf,
        text_packet(buf).last() == 10u8,
{
    assert(text_packet(buf).subrange(0, 4) =~= length_prefix(buf.len() + 5));
    assert(text_packet(buf).subrange(4, buf.len() + 4 as int) =~= buf);
}

/// `git_packetline::Writer::new` over an empty `Vec<u8>`: nothing is in the
/// sink yet, and the writer starts out in binary mode.
#[verifier::external_body]
pub(crate) fn new_writer() -> (w: git_packetline::Writer<Vec<u8>>)
    ensures
        sink_bytes(w) == Seq::<u8>::empty(),
        binary_mode(w),
{
    git_packetline::Writer::new(Vec::new())
}

/// `git_packetline::Writer::enable_binary_mode`: switches the mode and leaves
/// the sink alone.
#[verifier::external_body]
pub(crate) fn enable_binary_mode(w: &mut git_packetline::Writer<Vec<u8>>)
    ensures
        binary_mode(*final(w)),
        sink_bytes(*final(w)) == sink_bytes(*old(w)),
{
    w.enable_binary_mode()
}

/// `git_packetline::Writer::enable_text_mode`: switches the mode and leaves
/// the sink alone.
#[verifier::external_body]
pub(crate) fn enable_text_mode(w: &mut git_packetline::Writer<Vec<u8>>)
    ensures
        !binary_mode(*final(w)),
        sink_bytes(*final(w)) == sink_bytes(*old(w)),
{
    w.enable_text_mode()
}

/// `std::io::Write::write` of `git_packetline::Writer`, over a sink that
/// cannot fail. An empty buffer is refused, and so is, in line mode, one that
/// leaves no room for the line feed; nothing is written then. Otherwise the
/// whole buffer is framed in this one call and its length returned.
#[verifier::external_body]
pub(crate) fn write_framed(w: &mut git_packetline::Writer<Vec<u8>>, buf: &[u8]) -> (r: Result<
    usize,
    std::io::Error,
>)
    ensures
        binary_mode(*final(w)) == binary_mode(*old(w)),
        r is Ok <==> accepted(binary_mode(*old(w)), buf@),
        r matches Ok(n) ==> n == buf@.len() && sink_bytes(*final(w)) == sink_bytes(*old(w))
            + frames(binary_mode(*old(w)), buf@),
        r is Err ==> sink_bytes(*final(w)) == sink_bytes(*old(w)),
{
    std::io::Write::write(w, buf)
}

/// `std::io::Write::flush` of `git_packetline::Writer`, which flushes the
/// sink: on a `Vec<u8>` that does nothing and succeeds.
#[verifier::external_body]
pub(crate) fn flush_sink(w: &mut git_packetline::Writer<Vec<u8>>) -> (r: Result<
    (),
    std::io::Error,
>)
    ensures
        r is Ok,
        binary_mode(*final(w)) == binary_mode(*old(w)),
        sink_bytes(*final(w)) == sink_bytes(*old(w)),
{
    std::io::Write::flush(w)
}

/// `git_packetline::encode::flush_to_write` on the writer's sink, past its
/// framing: the four bytes of a flush packet are appended.
#[verifier::external_body]
pub(crate) fn emit_flush(w: &mut git_packetline::Writer<Vec<u8>>) -> (r: Result<
    usize,
    std::io::Error,
>)
    ensures
        r is Ok,
        binary_mode(*final(w)) == binary_mode(*old(w)),
        sink_bytes(*final(w)) == sink_bytes(*old(w)) + flush_packet(),
{
    git_packetline::encode::flush_to_write(w.inner_mut())
}

/// `git_packetline::TextRef::from` and its `write_to` on the writer's sink,
/// past its framing: a trailing line feed is cut, and what is left goes out
/// as one text packet, unless it is empty or too long, when nothing is
/// written. An empty `text` is left out, as the conversion indexes its last
/// byte.
#[verifier::external_body]
pub(crate) fn emit_text(w: &mut git_packetline::Writer<Vec<u8>>, text: &[u8]) -> (r: Result<
    usize,
    std::io::Error,
>)
    requires
        text@.len() > 0,
    ensures
        binary_mode(*final(w)) == binary_mode(*old(w)),
        r is Ok <==> 0 < strip_newline(text@).len() < MAX_DATA_LEN,
        r is Ok ==> sink_bytes(*final(w)) == sink_bytes(*old(w)) + text_packet(
            strip_newline(text@),
        ),
        r is Err ==> sink_bytes(*final(w)) == sink_bytes(*old(w)),
{
    git_packetline::TextRef::from(text).write_to(w.inner_mut())
}

/// `git_packetline::Writer::into_inner`: hands out the sink with all that was
/// written to it.
#[verifier::external_body]
pub(crate) fn into_sink(w: git_packetline::Writer<Vec<u8>>) -> (out: Vec<u8>)
    ensures
        out@ == sink_bytes(w),
{
    w.into_inner()
}

} // verus!
