use git_transport::{
    Capabilities, Capability, Error, ExtendedBufRead, MessageKind, Protocol, RequestWriter,
    ResponseReader, Service, SetServiceResponse, Transport, TransportV2Ext, WriteMode,
};

use std::cell::RefCell;
use std::rc::Rc;

type Progress = Box<dyn FnMut(bool, &[u8])>;

/// A reader over lines that are already decoded: `(band, text)`, with band 1
/// for payload, 2 for progress and 3 for errors.
struct Lines {
    lines: Vec<(u8, Vec<u8>)>,
    next: usize,
    buf: Vec<u8>,
    handler: Option<Progress>,
}

impl Lines {
    fn new(lines: Vec<(u8, Vec<u8>)>) -> Self {
        Lines { lines, next: 0, buf: Vec::new(), handler: None }
    }
}

impl ExtendedBufRead for Lines {
    type Handler = Progress;

    fn buffered(&self) -> Vec<u8> {
        self.buf.clone()
    }

    fn intercepts(&self) -> bool {
        self.handler.is_some()
    }

    fn set_progress_handler(&mut self, handle_progress: Option<Progress>) {
        self.handler = handle_progress;
    }

    fn fill_buf(&mut self) -> Result<Vec<u8>, Error> {
        while self.buf.is_empty() && self.next < self.lines.len() {
            let (band, text) = self.lines[self.next].clone();
            self.next += 1;
            match (band, self.handler.as_mut()) {
                (1, _) | (_, None) => self.buf = text,
                (band, Some(handler)) => handler(band == 3, &text),
            }
        }
        Ok(self.buf.clone())
    }

    fn consume(&mut self, amt: usize) {
        self.buf.drain(..amt);
    }
}

struct Loopback {
    desired: Protocol,
    server: Protocol,
    negotiated: Option<Protocol>,
    requests: usize,
}

impl Loopback {
    fn new(desired: Protocol, server: Protocol) -> Self {
        Loopback { desired, server, negotiated: None, requests: 0 }
    }
}

impl Transport for Loopback {
    type Reader = Lines;
    type Refs = Vec<u8>;

    fn desired_protocol(&self) -> Protocol {
        self.desired
    }

    fn negotiated(&self) -> Option<Protocol> {
        self.negotiated
    }

    fn handshake(&mut self, _service: Service) -> Result<SetServiceResponse<Vec<u8>>, Error> {
        let actual = self.desired.downgraded_to(self.server);
        self.negotiated = Some(actual);
        let capabilities = Capabilities::from_entries(vec![
            Capability { name: b"agent".to_vec(), value: Some(b"git/2.28.0".to_vec()) },
            Capability { name: b"ls-refs".to_vec(), value: None },
        ]);
        let refs = match actual {
            Protocol::V1 => Some(b"refs/heads/main".to_vec()),
            Protocol::V2 => None,
        };
        Ok(SetServiceResponse { actual_protocol: actual, capabilities, refs })
    }

    fn request(
        &mut self,
        write_mode: WriteMode,
        on_drop: Vec<MessageKind>,
    ) -> Result<RequestWriter<Lines>, Error> {
        assert!(self.negotiated.is_some(), "handshake must come first");
        self.requests += 1;
        Ok(RequestWriter::new_from_bufread(Lines::new(Vec::new()), write_mode, on_drop))
    }
}

fn writer(mode: WriteMode, on_drop: Vec<MessageKind>) -> RequestWriter<Lines> {
    RequestWriter::new_from_bufread(Lines::new(Vec::new()), mode, on_drop)
}

#[test]
fn v2_command_after_pure_v2_handshake() {
    let mut t = Loopback::new(Protocol::V2, Protocol::V2);
    let res = t.handshake(Service::UploadPack).expect("handshake works");
    assert_eq!(res.actual_protocol, Protocol::V2);
    assert!(res.refs.is_none());
    let reader = t
        .invoke("ls-refs", &[("agent", Some("example/1.0"))], None)
        .expect("invoke works");
    assert_eq!(
        reader.request().as_slice(),
        &b"0014command=ls-refs\n0016agent=example/1.0\n0000"[..]
    );
}

#[test]
fn handshake_downgrades_to_what_the_server_speaks() {
    let mut t = Loopback::new(Protocol::V2, Protocol::V1);
    let res = t.handshake(Service::UploadPack).expect("never an error");
    assert_eq!(res.actual_protocol, Protocol::V1);
    assert_eq!(res.refs, Some(b"refs/heads/main".to_vec()));
    assert!(res.capabilities.contains(b"ls-refs"));
}

#[test]
fn downgrade_never_goes_up() {
    assert_eq!(Protocol::V1.downgraded_to(Protocol::V2), Protocol::V1);
    assert_eq!(Protocol::V1.downgraded_to(Protocol::V1), Protocol::V1);
    assert_eq!(Protocol::V2.downgraded_to(Protocol::V1), Protocol::V1);
    assert_eq!(Protocol::V2.downgraded_to(Protocol::V2), Protocol::V2);
    assert!(Protocol::V1 < Protocol::V2);
}

#[test]
fn invoke_without_capabilities_still_flushes() {
    let mut t = Loopback::new(Protocol::V2, Protocol::V2);
    t.handshake(Service::UploadPack).expect("handshake works");
    let reader = t.invoke("fetch", &[], None).expect("invoke works");
    assert_eq!(reader.request().as_slice(), &b"0012command=fetch\n0000"[..]);
}

#[test]
fn invoke_keeps_order_and_duplicates() {
    let mut t = Loopback::new(Protocol::V2, Protocol::V2);
    t.handshake(Service::UploadPack).expect("handshake works");
    let caps = [("b", None), ("a", Some("1")), ("b", None), ("a", Some(""))];
    let reader = t.invoke("x", &caps, None).expect("invoke works");
    assert_eq!(
        reader.request().as_slice(),
        &b"000ecommand=x\n0006b\n0008a=1\n0006b\n0007a=\n0000"[..]
    );
}

#[test]
fn invoke_with_arguments_is_refused() {
    let mut t = Loopback::new(Protocol::V2, Protocol::V2);
    t.handshake(Service::UploadPack).expect("handshake works");
    let res = t.invoke("fetch", &[("agent", None)], Some(vec![b"want".to_vec()]));
    assert!(matches!(res, Err(Error::ArgumentsUnsupported)));
    let res = t.invoke("fetch", &[], Some(Vec::new()));
    assert!(matches!(res, Err(Error::ArgumentsUnsupported)));
    assert_eq!(t.requests, 0);
}

#[test]
fn invoke_refuses_a_line_that_is_too_long() {
    let mut t = Loopback::new(Protocol::V2, Protocol::V2);
    t.handshake(Service::UploadPack).expect("handshake works");
    let long = "a".repeat(65516);
    let res = t.invoke("fetch", &[(long.as_str(), None)], None);
    assert!(matches!(res, Err(Error::Io { .. })));
}

#[test]
fn binary_mode_keeps_payload() {
    let mut w = writer(WriteMode::Binary, Vec::new());
    assert_eq!(w.write(b"hello\n").expect("written"), 6);
    assert_eq!(w.write(&[0u8, 255, 10, 13]).expect("written"), 4);
    let reader = w.into_read();
    assert_eq!(reader.request().as_slice(), &b"000ahello\n0008\x00\xff\n\r"[..]);
}

#[test]
fn binary_mode_splits_what_does_not_fit() {
    let mut w = writer(WriteMode::Binary, Vec::new());
    let payload = vec![7u8; 65517];
    assert_eq!(w.write(&payload).expect("written"), 65517);
    let out = w.into_read().into_parts().0;
    assert_eq!(out.len(), 4 + 65516 + 4 + 1);
    assert_eq!(&out[..4], b"fff0");
    assert_eq!(&out[4..65520], &payload[..65516]);
    assert_eq!(&out[65520..], b"0005\x07");
}

#[test]
fn line_mode_makes_one_packet_per_write() {
    let mut w = writer(WriteMode::OneLFTerminatedLinePerWriteCall, Vec::new());
    assert_eq!(w.write(b"hello").expect("written"), 5);
    assert_eq!(w.write(b"world").expect("written"), 5);
    let reader = w.into_read();
    assert_eq!(reader.request().as_slice(), &b"000ahello\n000aworld\n"[..]);
}

#[test]
fn line_mode_limit() {
    let mut w = writer(WriteMode::OneLFTerminatedLinePerWriteCall, Vec::new());
    assert!(matches!(w.write(&vec![b'a'; 65516]), Err(Error::Io { .. })));
    assert!(matches!(w.write(&vec![b'a'; 70000]), Err(Error::Io { .. })));
    assert_eq!(w.write(&vec![b'a'; 65515]).expect("fits"), 65515);
    let out = w.into_read().into_parts().0;
    assert_eq!(out.len(), 65520);
    assert_eq!(&out[..4], b"fff0");
    assert_eq!(out[65519], b'\n');
}

#[test]
fn empty_write_is_refused_and_empty_write_all_is_nothing() {
    let mut w = writer(WriteMode::Binary, Vec::new());
    assert!(matches!(w.write(b""), Err(Error::Io { .. })));
    assert!(w.write_all(b"").is_ok());
    assert!(w.write_all(b"ab").is_ok());
    assert!(w.flush().is_ok());
    assert_eq!(w.into_read().request().as_slice(), &b"0006ab"[..]);
}

#[test]
fn flush_on_drop_without_any_write() {
    let w = writer(WriteMode::Binary, vec![MessageKind::Flush]);
    assert_eq!(w.into_read().request().as_slice(), &b"0000"[..]);
}

#[test]
fn nothing_on_drop_adds_nothing() {
    let w = writer(WriteMode::Binary, Vec::new());
    assert!(w.into_read().request().is_empty());
    let mut w = writer(WriteMode::default(), Vec::new());
    w.write(b"want").expect("written");
    assert_eq!(w.into_read().request().as_slice(), &b"0009want\n"[..]);
}

#[test]
fn teardown_messages_go_out_first_in_first_out() {
    let mut w = writer(
        WriteMode::Binary,
        vec![MessageKind::Text(b"done"), MessageKind::Flush, MessageKind::Text(b"bye\n")],
    );
    w.write(b"pack").expect("written");
    assert_eq!(
        w.into_read().request().as_slice(),
        &b"0008pack0009done\n00000008bye\n"[..]
    );
}

#[test]
fn longest_teardown_text_fills_one_packet() {
    let long: &'static [u8] = Vec::leak(vec![b'z'; 65515]);
    let w = writer(WriteMode::Binary, vec![MessageKind::Text(long)]);
    let out = w.into_read().into_parts().0;
    assert_eq!(out.len(), 65520);
    assert_eq!(&out[..4], b"fff0");
    assert_eq!(&out[4..65519], long);
    assert_eq!(out[65519], b'\n');
}

#[test]
fn a_queue_is_emittable_when_each_message_is() {
    use_queue(&[], true);
    use_queue(&[MessageKind::Flush, MessageKind::Text(b"done")], true);
    use_queue(&[MessageKind::Flush, MessageKind::Text(b"\n"), MessageKind::Flush], false);
}

fn use_queue(queue: &[MessageKind], expected: bool) {
    assert_eq!(git_transport::message::queue_is_emittable(queue), expected);
}

#[test]
fn emittable_messages() {
    let long: &'static [u8] = Vec::leak(vec![b'a'; 65516]);
    assert!(!MessageKind::Text(long).is_emittable());
    assert!(MessageKind::Text(&long[..65515]).is_emittable());
    assert!(MessageKind::Flush.is_emittable());
    assert!(MessageKind::Text(b"done").is_emittable());
    assert!(MessageKind::Text(b"done\n").is_emittable());
    assert!(!MessageKind::Text(b"").is_emittable());
    assert!(!MessageKind::Text(b"\n").is_emittable());
}

#[test]
fn default_write_mode_is_line_mode() {
    assert_eq!(WriteMode::default(), WriteMode::OneLFTerminatedLinePerWriteCall);
}

#[test]
fn capabilities_are_found_by_name() {
    let caps = Capabilities::from_entries(vec![
        Capability { name: b"agent".to_vec(), value: Some(b"git/2".to_vec()) },
        Capability { name: b"shallow".to_vec(), value: None },
        Capability { name: b"agent".to_vec(), value: None },
    ]);
    assert_eq!(caps.len(), 3);
    assert_eq!(caps.get(1).expect("in range").name, b"shallow".to_vec());
    assert_eq!(caps.get(0).expect("in range").value, Some(b"git/2".to_vec()));
    assert!(caps.get(3).is_none());
    assert_eq!(caps.position(b"agent"), Some(0));
    assert_eq!(caps.position(b"shallow"), Some(1));
    assert_eq!(caps.position(b"agen"), None);
    assert!(caps.contains(b"shallow"));
    assert!(!caps.contains(b"fetch"));
}

#[test]
fn progress_goes_to_the_handler_and_payload_stays() {
    let lines = Lines::new(vec![
        (1, b"data1".to_vec()),
        (2, b"counting".to_vec()),
        (3, b"oops".to_vec()),
        (1, b"data2".to_vec()),
        (2, b"late".to_vec()),
        (1, b"data3".to_vec()),
    ]);
    let mut reader = ResponseReader::new(Vec::new(), lines);
    let seen: Rc<RefCell<Vec<(bool, Vec<u8>)>>> = Rc::new(RefCell::new(Vec::new()));
    let sink = seen.clone();
    reader.set_progress_handler(Some(Box::new(move |is_err: bool, text: &[u8]| {
        sink.borrow_mut().push((is_err, text.to_vec()))
    })));
    assert_eq!(reader.fill_buf().expect("filled"), b"data1".to_vec());
    reader.consume(5);
    assert_eq!(reader.fill_buf().expect("filled"), b"data2".to_vec());
    assert_eq!(
        *seen.borrow(),
        vec![(false, b"counting".to_vec()), (true, b"oops".to_vec())]
    );
    reader.consume(2);
    reader.set_progress_handler(None);
    assert_eq!(reader.fill_buf().expect("kept"), b"ta2".to_vec());
    reader.consume(3);
    assert_eq!(reader.fill_buf().expect("filled"), b"late".to_vec());
    assert_eq!(seen.borrow().len(), 2);
}

#[test]
fn read_takes_what_fits_and_keeps_the_rest() {
    let lines = Lines::new(vec![(1, b"abcdef".to_vec()), (1, b"gh".to_vec())]);
    let mut reader = ResponseReader::new(b"0000".to_vec(), lines);
    let mut buf = [0u8; 4];
    assert_eq!(reader.read(&mut buf).expect("read"), 4);
    assert_eq!(&buf, b"abcd");
    assert_eq!(reader.read(&mut buf).expect("read"), 2);
    assert_eq!(&buf, b"efcd");
    assert_eq!(reader.read(&mut buf).expect("read"), 2);
    assert_eq!(&buf, b"ghcd");
    assert_eq!(reader.read(&mut buf).expect("read"), 0);
    assert_eq!(reader.request().as_slice(), &b"0000"[..]);
    let (request, _inner) = reader.into_parts();
    assert_eq!(request, b"0000".to_vec());
}

#[test]
fn error_messages() {
    assert_eq!(
        Error::ExpectedLine("capabilities").message(),
        "A capabilities line was expected, but there was none"
    );
    assert_eq!(
        Error::Capabilities { message: String::new() }.message(),
        "Capabilities could not be parsed"
    );
    assert_eq!(Error::ExpectedDataLine.message(), "Expected a data line, but got a delimiter");
    assert_eq!(
        Error::ArgumentsUnsupported.message(),
        "Arguments to a command are not supported"
    );
}

#[test]
fn decorated_writer_sends_its_queue_on_finish() {
    let mut inner = git_packetline::Writer::new(Vec::new());
    inner.enable_text_mode();
    let mut w = git_transport::WritePacketOnDrop::new(
        inner,
        vec![MessageKind::Flush, MessageKind::Text(b"done\n")],
    );
    assert_eq!(w.write(b"have 1234").expect("written"), 9);
    assert!(w.write(b"").is_err());
    assert!(w.flush().is_ok());
    assert_eq!(w.finish(), b"000ehave 1234\n00000009done\n".to_vec());
}
