//! The transport that a backend offers, and protocol V2 commands on top of it.

use vstd::prelude::*;
use vstd::string::StringSliceAdditionalSpecFns;
use crate::bytes::{append, same_bytes};
use crate::error::Error;
use crate::message::{all_emittable, lemma_flush_alone, teardown_bytes, MessageKind, WriteMode};
use crate::packet::flush_packet;
use crate::reader::{ExtendedBufRead, ResponseReader};
use crate::writer::{line_accepted, line_frames, RequestWriter};

verus! {

/// The versions of the wire protocol, the older one first.
#[derive(PartialEq, Eq, Debug, Hash, Ord, PartialOrd, Clone, Copy, Structural)]
pub enum Protocol {
    /// Version zero or one: the server answers with its refs at once.
    V1,
    /// Version two: the client asks by command.
    V2,
}

impl Protocol {
    /// Whether `self` is `other` or older: what a server may answer with
    /// where `other` was asked for.
    pub open spec fn at_most(self, other: Protocol) -> bool {
        self == Protocol::V1 || other == Protocol::V2
    }

    /// The older of two versions: what a client that asks for `self` gets
    /// from a server that can do `offered`.
    pub fn downgraded_to(self, offered: Protocol) -> (actual: Protocol)
        ensures
            actual.at_most(self),
            actual.at_most(offered),
            actual == self || actual == offered,
    {
        match (self, offered) {
            (Protocol::V2, Protocol::V2) => Protocol::V2,
            _ => Protocol::V1,
        }
    }
}

/// What the client wants of the remote side.
#[derive(PartialEq, Eq, Debug, Hash, Ord, PartialOrd, Clone, Copy, Structural)]
pub enum Service {
    /// To fetch from it.
    UploadPack,
    /// To push to it.
    ReceivePack,
}

/// One advertised capability: a name, and a value where it has one.
pub struct Capability {
    pub name: Vec<u8>,
    pub value: Option<Vec<u8>>,
}

/// The capabilities of a server, in the order in which it advertised them.
pub struct Capabilities {
    entries: Vec<Capability>,
}

impl Capabilities {
    /// The capabilities as they were advertised.
    pub closed spec fn entries(&self) -> Seq<Capability> {
        self.entries@
    }

    /// The advertised names, in order.
    pub open spec fn names(&self) -> Seq<Seq<u8>> {
        Seq::new(self.entries().len(), |i: int| self.entries()[i].name@)
    }

    /// Takes the capabilities as they were advertised.
    pub fn from_entries(entries: Vec<Capability>) -> (caps: Self)
        ensures
            caps.entries() == entries@,
    {
        Capabilities { entries }
    }

    /// The number of capabilities.
    pub fn len(&self) -> (n: usize)
        ensures
            n == self.entries().len(),
    {
        self.entries.len()
    }

    /// The capability at place `i` of the advertisement.
    pub fn get(&self, i: usize) -> (found: Option<&Capability>)
        ensures
            found is Some <==> i < self.entries().len(),
            found matches Some(c) ==> *c == self.entries()[i as int],
    {
        if i < self.entries.len() {
            Some(&self.entries[i])
        } else {
            None
        }
    }

    /// The place of the first capability called `name`, if there is one.
    pub fn position(&self, name: &[u8]) -> (at: Option<usize>)
        ensures
            match at {
                Some(i) => i < self.names().len() && self.names()[i as int] == name@ && forall|
                    j: int,
                | 0 <= j < i ==> self.names()[j] != name@,
                None => forall|j: int| 0 <= j < self.names().len() ==> self.names()[j] != name@,
            },
    {
        let mut i: usize = 0;
        while i < self.entries.len()
            invariant
                i <= self.entries.len(),
                forall|j: int| 0 <= j < i ==> self.names()[j] != name@,
            decreases self.entries.len() - i,
        {
            if same_bytes(self.entries[i].name.as_slice(), name) {
                return Some(i);
            }
            i = i + 1;
        }
        None
    }

    /// Whether a capability called `name` was advertised.
    pub fn contains(&self, name: &[u8]) -> (found: bool)
        ensures
            found == self.names().contains(name@),
    {
        self.position(name).is_some()
    }
}

/// What a handshake brings: the protocol that the server speaks, its
/// capabilities, and under the older protocol the stream of its refs, which
/// has to be read to its end before anything else is asked of the transport.
pub struct SetServiceResponse<S> {
    /// The protocol that the server can provide, which may be older than the
    /// one asked for.
    pub actual_protocol: Protocol,
    pub capabilities: Capabilities,
    /// The refs and their peeled counterparts; only the older protocol sends
    /// them with the handshake.
    pub refs: Option<S>,
}

impl<S> SetServiceResponse<S> {
    /// Refs come with the handshake only under the older protocol.
    pub open spec fn wf(&self) -> bool {
        self.refs is Some ==> self.actual_protocol == Protocol::V1
    }
}

/// A connection to a remote service. Its operations are called in the order
/// of the protocol, one at a time, and whatever reader or writer one of them
/// hands out is used up before the next is called.
pub trait Transport: Sized {
    /// The reader that replies come from.
    type Reader: ExtendedBufRead;

    /// The stream of refs that a handshake under the older protocol leaves.
    type Refs;

    /// The protocol that this side asks for.
    spec fn desired_protocol(&self) -> Protocol;

    /// The protocol that the last handshake settled, if there was one.
    spec fn negotiated(&self) -> Option<Protocol>;

    /// Asks the server for `service`. The answer never names a newer
    /// protocol than the one asked for.
    fn handshake(&mut self, service: Service) -> (r: Result<
        SetServiceResponse<Self::Refs>,
        Error,
    >)
        ensures
            final(self).desired_protocol() == old(self).desired_protocol(),
            r matches Ok(s) ==> s.wf() && s.actual_protocol.at_most(old(self).desired_protocol())
                && final(self).negotiated() == Some(s.actual_protocol),
    ;

    /// A writer for one request, which has written nothing yet, frames as
    /// `write_mode` says and sends `on_drop` when the writing ends.
    fn request(&mut self, write_mode: WriteMode, on_drop: Vec<MessageKind>) -> (r: Result<
        RequestWriter<Self::Reader>,
        Error,
    >)
        requires
            old(self).negotiated() is Some,
        ensures
            final(self).desired_protocol() == old(self).desired_protocol(),
            final(self).negotiated() == old(self).negotiated(),
            r matches Ok(w) ==> w.sent() == Seq::<u8>::empty() && w.mode() == write_mode
                && w.pending() == on_drop@,
    ;
}

/// The bytes `command=`.
pub open spec fn command_prefix() -> Seq<u8> {
    seq![99u8, 111u8, 109u8, 109u8, 97u8, 110u8, 100u8, 61u8]
}

/// The line that names a command.
pub open spec fn command_line(command: Seq<u8>) -> Seq<u8> {
    command_prefix() + command
}

/// The line of one capability: its name, and `=` and the value where it has
/// one.
pub open spec fn capability_line(name: Seq<u8>, value: Option<Seq<u8>>) -> Seq<u8> {
    match value {
        Some(v) => name + seq![61u8] + v,
        None => name,
    }
}

/// The line of one capability as a caller gives it.
pub open spec fn entry_line<'a>(entry: (&'a str, Option<&'a str>)) -> Seq<u8> {
    capability_line(
        entry.0.spec_bytes(),
        match entry.1 {
            Some(v) => Some(v.spec_bytes()),
            None => None,
        },
    )
}

/// The lines of a command: the command itself, then its capabilities in the
/// order given, each of them once for each time it is given.
pub open spec fn request_lines<'a>(
    command: &'a str,
    capabilities: Seq<(&'a str, Option<&'a str>)>,
) -> Seq<Seq<u8>> {
    Seq::new(
        capabilities.len() + 1,
        |i: int|
            if i == 0 {
                command_line(command.spec_bytes())
            } else {
                entry_line(capabilities[i - 1])
            },
    )
}

/// Whether each of `lines` is taken by a writer in the given mode.
pub open spec fn lines_accepted(binary: bool, lines: Seq<Seq<u8>>) -> bool {
    forall|i: int| 0 <= i < lines.len() ==> line_accepted(binary, #[trigger] lines[i])
}

/// The bytes that `lines` make on the wire, written one after the other.
pub open spec fn lines_frames(binary: bool, lines: Seq<Seq<u8>>) -> Seq<u8>
    decreases lines.len(),
{
    if lines.len() == 0 {
        Seq::empty()
    } else {
        lines_frames(binary, lines.drop_last()) + line_frames(binary, lines.last())
    }
}

/// Writes a command and its capabilities to `writer`, one line each, and
/// ends the writing. The first line that the writer refuses ends the call
/// with its error.
pub fn invoke_on<'a, R: ExtendedBufRead>(
    writer: RequestWriter<R>,
    command: &'a str,
    capabilities: &[(&'a str, Option<&'a str>)],
) -> (r: Result<ResponseReader<R>, Error>)
    requires
        all_emittable(writer.pending()),
    ensures
        r is Ok <==> lines_accepted(writer.mode().binary(), request_lines(command, capabilities@)),
        r matches Ok(reader) ==> reader.inner() == writer.reader() && reader.sent()
            == writer.sent() + lines_frames(
            writer.mode().binary(),
            request_lines(command, capabilities@),
        ) + teardown_bytes(writer.pending()),
        r matches Err(e) ==> e is Io,
{
    let ghost binary = writer.mode().binary();
    let ghost lines = request_lines(command, capabilities@);
    let mut out = writer;
    let mut line: Vec<u8> = vec![99u8, 111u8, 109u8, 109u8, 97u8, 110u8, 100u8, 61u8];
    assert(line@ =~= command_prefix());
    append(&mut line, command.as_bytes());
    assert(line@ == lines[0]);
    match out.write_all(line.as_slice()) {
        Ok(()) => {},
        Err(e) => {
            return Err(e);
        },
    }
    proof {
        assert(lines.take(1).drop_last() =~= Seq::<Seq<u8>>::empty());
        assert(lines.take(1).last() == lines[0]);
        assert(lines_frames(binary, lines.take(1)) =~= line_frames(binary, lines[0])) by {
            reveal_with_fuel(lines_frames, 2);
        }
    }
    let mut i: usize = 0;
    while i < capabilities.len()
        invariant
            i <= capabilities.len(),
            lines == request_lines(command, capabilities@),
            binary == writer.mode().binary(),
            out.mode() == writer.mode(),
            out.pending() == writer.pending(),
            out.reader() == writer.reader(),
            out.sent() == writer.sent() + lines_frames(binary, lines.take(i + 1)),
            forall|j: int| 0 <= j < i + 1 ==> line_accepted(binary, #[trigger] lines[j]),
        decreases capabilities.len() - i,
    {
        let (name, value) = capabilities[i];
        let mut line: Vec<u8> = Vec::new();
        append(&mut line, name.as_bytes());
        match value {
            Some(v) => {
                line.push(61u8);
                append(&mut line, v.as_bytes());
            },
            None => {},
        }
        assert(line@ =~= lines[i + 1]);
        match out.write_all(line.as_slice()) {
            Ok(()) => {},
            Err(e) => {
                return Err(e);
            },
        }
        proof {
            let next = lines.take(i + 2);
            assert(next.drop_last() =~= lines.take(i + 1));
            assert(next.last() == lines[i + 1]);
            assert(out.sent() =~= writer.sent() + lines_frames(binary, next));
        }
        i = i + 1;
    }
    assert(lines.take(i + 1) =~= lines);
    Ok(out.into_read())
}

/// Protocol V2 commands, for every transport.
pub trait TransportV2Ext: Transport {
    /// Invokes `command` with the `capabilities` given, which go out in
    /// their order, one line each, after the command's own line; a flush
    /// packet ends the request. `arguments` have no wire format: a call
    /// that brings any is refused before anything is asked of the transport.
    fn invoke<'a>(
        &mut self,
        command: &'a str,
        capabilities: &[(&'a str, Option<&'a str>)],
        arguments: Option<Vec<Vec<u8>>>,
    ) -> (r: Result<ResponseReader<Self::Reader>, Error>)
        requires
            old(self).negotiated() == Some(Protocol::V2),
        ensures
            arguments is Some ==> (r matches Err(e) && e is ArgumentsUnsupported),
            arguments is Some ==> *final(self) == *old(self),
            arguments is None ==> final(self).negotiated() == old(self).negotiated(),
            arguments is None && r is Ok ==> lines_accepted(
                false,
                request_lines(command, capabilities@),
            ),
            arguments is None ==> (r matches Ok(reader) ==> reader.sent() == lines_frames(
                false,
                request_lines(command, capabilities@),
            ) + flush_packet()),
    ;
}

impl<T: Transport> TransportV2Ext for T {
    fn invoke<'a>(
        &mut self,
        command: &'a str,
        capabilities: &[(&'a str, Option<&'a str>)],
        arguments: Option<Vec<Vec<u8>>>,
    ) -> (r: Result<ResponseReader<Self::Reader>, Error>) {
        if arguments.is_some() {
            return Err(Error::ArgumentsUnsupported);
        }
        let on_drop: Vec<MessageKind> = vec![MessageKind::Flush];
        proof {
            lemma_flush_alone();
            assert(on_drop@ =~= seq![MessageKind::Flush]);
        }
        match self.request(WriteMode::OneLFTerminatedLinePerWriteCall, on_drop) {
            Ok(writer) => {
                assert(writer.sent() + lines_frames(
                    false,
                    request_lines(command, capabilities@),
                ) =~= lines_frames(false, request_lines(command, capabilities@)));
                invoke_on(writer, command, capabilities)
            },
            Err(e) => Err(e),
        }
    }
}

/// A command without capabilities is one line: the command's own.
pub proof fn lemma_command_alone<'a>(binary: bool, command: &'a str)
    ensures
        lines_frames(binary, request_lines(command, Seq::empty())) == line_frames(
            binary,
            command_line(command.spec_bytes()),
        ),
{
    let lines = request_lines(command, Seq::empty());
    assert(lines.drop_last() =~= Seq::<Seq<u8>>::empty());
    reveal_with_fuel(lines_frames, 2);
    assert(lines_frames(binary, lines) =~= line_frames(binary, lines.last()));
}

/// One more capability at the end of the list is one more line at the end
/// of the request, and leaves the lines before it as they were.
pub proof fn lemma_capability_appended<'a>(
    binary: bool,
    command: &'a str,
    capabilities: Seq<(&'a str, Option<&'a str>)>,
    entry: (&'a str, Option<&'a str>),
)
    ensures
        lines_frames(binary, request_lines(command, capabilities.push(entry))) == lines_frames(
            binary,
            request_lines(command, capabilities),
        ) + line_frames(binary, entry_line(entry)),
{
    let longer = request_lines(command, capabilities.push(entry));
    assert(longer.drop_last() =~= request_lines(command, capabilities));
    assert(longer.last() == entry_line(entry));
}

} // verus!
