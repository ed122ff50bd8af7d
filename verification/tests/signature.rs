use git_transport::signature::{
    signature as decode, DecodeError, Failure, Section, Sign, Signature, Time,
};

fn signature(
    name: &'static str,
    email: &'static str,
    time: u32,
    sign: Sign,
    offset: i32,
) -> Signature<'static> {
    Signature {
        name: name.as_bytes(),
        email: email.as_bytes(),
        time: Time { time, offset, sign },
    }
}

#[test]
fn tz_minus() {
    assert_eq!(
        decode(b"Sebastian Thiel <byronimo@gmail.com> 1528473343 -0230")
            .expect("parse to work")
            .1,
        signature("Sebastian Thiel", "byronimo@gmail.com", 1528473343, Sign::Minus, -9000)
    );
}

#[test]
fn tz_plus() {
    assert_eq!(
        decode(b"Sebastian Thiel <byronimo@gmail.com> 1528473343 +0230")
            .expect("parse to work")
            .1,
        signature("Sebastian Thiel", "byronimo@gmail.com", 1528473343, Sign::Plus, 9000)
    );
}

#[test]
fn negative_offset_0000() {
    assert_eq!(
        decode(b"Sebastian Thiel <byronimo@gmail.com> 1528473343 -0000")
            .expect("parse to work")
            .1,
        signature("Sebastian Thiel", "byronimo@gmail.com", 1528473343, Sign::Minus, 0)
    );
}

#[test]
fn empty_name_and_email() {
    assert_eq!(
        decode(b" <> 12345 -1215").expect("parse to work").1,
        signature("", "", 12345, Sign::Minus, -44100)
    );
}

#[test]
fn invalid_signature() {
    let input = b"hello < 12345 -1215";
    assert_eq!(
        decode(input)
            .expect_err("parse fails as > is missing")
            .message(input),
        "Parse error:\nTakeUntil at:  12345 -1215\nin section '<email>', at:  12345 -1215\nin section '<name> <<email>> <timestamp> <+|-><HHMM>', at: hello < 12345 -1215\n"
    );
}

#[test]
fn invalid_time() {
    let input = b"hello <> abc -1215";
    assert_eq!(
        decode(input)
            .expect_err("parse fails as > is missing")
            .message(input),
        "Parse error:\nMapRes at: abc -1215\nin section '<timestamp>', at: abc -1215\nin section '<name> <<email>> <timestamp> <+|-><HHMM>', at: hello <> abc -1215\n"
    );
}

fn failure(input: &[u8]) -> DecodeError {
    decode(input).expect_err("no signature")
}

#[test]
fn each_part_fails_at_its_place() {
    assert_eq!(
        failure(b"no bracket"),
        DecodeError { failure: Failure::TakeUntil, section: Section::Name, at: 0 }
    );
    assert_eq!(
        failure(b"a <b>"),
        DecodeError { failure: Failure::TakeUntil, section: Section::Email, at: 3 }
    );
    assert_eq!(
        failure(b"a <b> 123"),
        DecodeError { failure: Failure::TakeUntil, section: Section::Timestamp, at: 6 }
    );
    assert_eq!(
        failure(b"a <b> 4294967296 +0000"),
        DecodeError { failure: Failure::MapRes, section: Section::Timestamp, at: 6 }
    );
    assert_eq!(
        failure(b"a <b>  +0000"),
        DecodeError { failure: Failure::MapRes, section: Section::Timestamp, at: 6 }
    );
    assert_eq!(
        failure(b"a <b> 1 *0000"),
        DecodeError { failure: Failure::Tag, section: Section::Zone, at: 8 }
    );
    assert_eq!(
        failure(b"a <b> 1 "),
        DecodeError { failure: Failure::Tag, section: Section::Zone, at: 8 }
    );
    assert_eq!(
        failure(b"a <b> 1 +0x00"),
        DecodeError { failure: Failure::TakeWhileMN, section: Section::Hours, at: 9 }
    );
    assert_eq!(
        failure(b"a <b> 1 +000"),
        DecodeError { failure: Failure::TakeWhileMN, section: Section::Minutes, at: 11 }
    );
}

#[test]
fn what_follows_the_signature_is_left_over() {
    let (rest, sig) = decode(b"A U Thor <a@b.c> 4294967295 +9959\ntree").expect("parses");
    assert_eq!(rest, b"\ntree");
    assert_eq!(sig, signature("A U Thor", "a@b.c", 4294967295, Sign::Plus, 99 * 3600 + 59 * 60));
    let (rest, _) = decode(b"a <b> 0 -0000").expect("parses");
    assert!(rest.is_empty());
}

#[test]
fn timestamp_may_carry_a_sign() {
    assert_eq!(decode(b"a <b> +17 +0100").expect("parses").1.time.time, 17);
    assert_eq!(decode(b"a <b> -0 +0100").expect("parses").1.time.time, 0);
    assert_eq!(failure(b"a <b> -1 +0100").failure, Failure::MapRes);
    assert_eq!(failure(b"a <b> + +0100").failure, Failure::MapRes);
}

#[test]
fn name_ends_at_the_first_bracket() {
    let sig = decode(b"a <b <c> 5 -0130").expect("parses").1;
    assert_eq!(sig.name, b"a");
    assert_eq!(sig.email, b"b <c");
    assert_eq!(
        failure(b"a <b <c> d> e> 5 -0130"),
        DecodeError { failure: Failure::MapRes, section: Section::Timestamp, at: 9 }
    );
}

#[test]
fn message_of_a_wrong_sign_names_both_tries() {
    let input = b"a <b> 1 *0000";
    assert_eq!(
        failure(input).message(input),
        "Parse error:\nTag at: *0000\nAlt at: *0000\nin section '+|-', at: *0000\nin section '<name> <<email>> <timestamp> <+|-><HHMM>', at: a <b> 1 *0000\n"
    );
    assert_eq!(
        String::from_utf8(failure(input).render(input)).expect("text"),
        failure(input).message(input)
    );
}
