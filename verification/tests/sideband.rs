use git_transport::sideband::{without_newline, Routed, SidebandBuffer};
use git_transport::Error;

#[test]
fn without_a_handler_every_line_is_payload() {
    let mut state = SidebandBuffer::new();
    assert!(!state.is_intercepting());
    assert_eq!(state.accept_line(b"\x02progress\n").expect("routed"), Routed::Payload);
    assert_eq!(state.filled().as_slice(), &b"\x02progress\n"[..]);
    state.consume(10);
    assert!(state.filled().is_empty());
    assert_eq!(state.accept_line(b"\x09x").expect("routed"), Routed::Payload);
    assert_eq!(state.filled().as_slice(), &b"\x09x"[..]);
}

#[test]
fn with_a_handler_the_band_decides() {
    let mut state = SidebandBuffer::new();
    state.set_intercepts(true);
    assert!(state.is_intercepting());
    assert_eq!(
        state.accept_line(b"\x02Counting objects: 1\n").expect("routed"),
        Routed::Progress { is_error: false, text: b"Counting objects: 1".to_vec() }
    );
    assert!(state.filled().is_empty());
    assert_eq!(
        state.accept_line(b"\x03fatal: no").expect("routed"),
        Routed::Progress { is_error: true, text: b"fatal: no".to_vec() }
    );
    assert!(state.filled().is_empty());
    assert_eq!(state.accept_line(b"\x01").expect("routed"), Routed::Skipped);
    assert!(state.filled().is_empty());
    assert_eq!(state.accept_line(b"\x01PACK\n").expect("routed"), Routed::Payload);
    assert_eq!(state.filled().as_slice(), &b"PACK\n"[..]);
}

#[test]
fn an_unknown_band_is_an_error() {
    let mut state = SidebandBuffer::new();
    state.set_intercepts(true);
    assert!(matches!(state.accept_line(b"\x04data"), Err(Error::Io { .. })));
    assert!(matches!(state.accept_line(b"\x00data"), Err(Error::Io { .. })));
    assert!(matches!(state.accept_line(b"PACK"), Err(Error::Io { .. })));
    assert!(state.filled().is_empty());
    assert!(state.is_intercepting());
}

#[test]
fn clearing_the_handler_keeps_what_is_buffered() {
    let mut state = SidebandBuffer::new();
    state.set_intercepts(true);
    assert_eq!(state.accept_line(b"\x01abcdef").expect("routed"), Routed::Payload);
    state.consume(2);
    state.set_intercepts(false);
    assert_eq!(state.filled().as_slice(), &b"cdef"[..]);
    state.consume(4);
    assert_eq!(state.accept_line(b"\x02late").expect("routed"), Routed::Payload);
    assert_eq!(state.filled().as_slice(), &b"\x02late"[..]);
}

#[test]
fn only_one_line_feed_is_cut() {
    assert_eq!(without_newline(b"done\n"), b"done");
    assert_eq!(without_newline(b"done\n\n"), b"done\n");
    assert_eq!(without_newline(b"done"), b"done");
    assert_eq!(without_newline(b"\n"), b"");
    assert_eq!(without_newline(b""), b"");
    let mut state = SidebandBuffer::new();
    state.set_intercepts(true);
    assert_eq!(
        state.accept_line(b"\x02").expect("routed"),
        Routed::Progress { is_error: false, text: Vec::new() }
    );
}
