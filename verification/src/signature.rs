//! The signature of an actor, as it stands in commits and tags:
//! `<name> <<email>> <timestamp> <+|-><HHMM>`.

use vstd::prelude::*;
use vstd::slice::slice_subrange;
use vstd::string::StringSliceAdditionalSpecFns;
use vstd::utf8::{encode_utf8, valid_utf8};
use crate::bytes::append;

verus! {

/// Whether a time zone lies east (`Plus`) or west (`Minus`) of UTC.
#[derive(PartialEq, Eq, Debug, Hash, Clone, Copy, Structural)]
pub enum Sign {
    Plus,
    Minus,
}

/// A point in time with the offset of its time zone.
#[derive(PartialEq, Eq, Debug, Hash, Clone, Copy, Structural)]
pub struct Time {
    /// Seconds since the epoch.
    pub time: u32,
    /// The offset of the time zone in seconds, negative west of UTC.
    pub offset: i32,
    /// The sign as it was written, which `-0000` keeps though its offset is zero.
    pub sign: Sign,
}

/// Who did something, and when.
#[derive(PartialEq, Eq, Debug, Hash, Clone, Copy)]
pub struct Signature<'a> {
    pub name: &'a [u8],
    pub email: &'a [u8],
    pub time: Time,
}

/// The part of the grammar that a signature failed in.
#[derive(PartialEq, Eq, Debug, Hash, Clone, Copy, Structural)]
pub enum Section {
    Name,
    Email,
    Timestamp,
    Zone,
    Hours,
    Minutes,
}

/// How a part of the grammar failed.
#[derive(PartialEq, Eq, Debug, Hash, Clone, Copy, Structural)]
pub enum Failure {
    /// What ends the part was not found.
    TakeUntil,
    /// The part is there and is no number that fits.
    MapRes,
    /// Neither `-` nor `+` stands where the sign belongs.
    Tag,
    /// Fewer than two digits stand where two belong.
    TakeWhileMN,
}

/// Why some bytes are no signature.
#[derive(PartialEq, Eq, Debug, Hash, Clone, Copy, Structural)]
pub struct DecodeError {
    pub failure: Failure,
    pub section: Section,
    /// Where in the input the part that failed begins.
    pub at: usize,
}

/// What parsing a signature comes to.
pub enum Outcome {
    Parsed { rest: Seq<u8>, name: Seq<u8>, email: Seq<u8>, time: Time },
    Failed(DecodeError),
}

/// The first place at or after `from` where `a` stands with `b` behind it.
pub open spec fn find_pair(s: Seq<u8>, from: int, a: u8, b: u8) -> Option<int>
    decreases s.len() - from,
{
    if from < 0 || from + 1 >= s.len() {
        None
    } else if s[from] == a && s[from + 1] == b {
        Some(from)
    } else {
        find_pair(s, from + 1, a, b)
    }
}

/// The first place at or after `from` where `a` stands.
pub open spec fn find_byte(s: Seq<u8>, from: int, a: u8) -> Option<int>
    decreases s.len() - from,
{
    if from < 0 || from >= s.len() {
        None
    } else if s[from] == a {
        Some(from)
    } else {
        find_byte(s, from + 1, a)
    }
}

/// Whether `b` is one of `0` to `9`.
pub open spec fn is_digit(b: u8) -> bool {
    48 <= b <= 57
}

/// Whether `s` holds digits only.
pub open spec fn all_digits(s: Seq<u8>) -> bool {
    forall|i: int| 0 <= i < s.len() ==> is_digit(#[trigger] s[i])
}

/// The number that the decimal digits `s` write.
pub open spec fn decimal_value(s: Seq<u8>) -> nat
    decreases s.len(),
{
    if s.len() == 0 {
        0
    } else {
        decimal_value(s.drop_last()) * 10 + (s.last() - 48) as nat
    }
}

/// The `u32` that `bytes` write in decimal, with a sign before the digits
/// if they like: at least one digit, nothing but digits, and a value that
/// fits, which behind `-` only zero does.
pub open spec fn decimal_u32(bytes: Seq<u8>) -> Option<u32> {
    let signed = bytes.len() > 0 && (bytes[0] == 43u8 || bytes[0] == 45u8);
    let digits = if signed {
        bytes.skip(1)
    } else {
        bytes
    };
    if digits.len() == 0 || !all_digits(digits) {
        None
    } else if signed && bytes[0] == 45u8 {
        if decimal_value(digits) == 0 {
            Some(0u32)
        } else {
            None
        }
    } else if decimal_value(digits) <= u32::MAX {
        Some(decimal_value(digits) as u32)
    } else {
        None
    }
}

/// `btoi::btoi` for `u32`: an optional sign and decimal digits, refused
/// where there is no digit, another byte, or a value that does not fit.
#[verifier::external_body]
fn parse_u32(bytes: &[u8]) -> (r: Option<u32>)
    ensures
        r == decimal_u32(bytes@),
{
    btoi::btoi::<u32>(bytes).ok()
}

/// The number that the two digits at `at` write.
pub open spec fn two_digits(s: Seq<u8>, at: int) -> int {
    (s[at] - 48) * 10 + (s[at + 1] - 48)
}

/// Whether two digits stand at `at`.
pub open spec fn two_digits_at(s: Seq<u8>, at: int) -> bool {
    0 <= at && at + 1 < s.len() && is_digit(s[at]) && is_digit(s[at + 1])
}

/// The time zone that stands at `at`, behind the name, the email and the
/// timestamp `time`.
pub open spec fn parse_zone(i: Seq<u8>, at: int, name: Seq<u8>, email: Seq<u8>, time: u32) -> Outcome {
    if !(0 <= at < i.len() && (i[at] == 45u8 || i[at] == 43u8)) {
        Outcome::Failed(
            DecodeError { failure: Failure::Tag, section: Section::Zone, at: at as usize },
        )
    } else if !two_digits_at(i, at + 1) {
        Outcome::Failed(
            DecodeError {
                failure: Failure::TakeWhileMN,
                section: Section::Hours,
                at: (at + 1) as usize,
            },
        )
    } else if !two_digits_at(i, at + 3) {
        Outcome::Failed(
            DecodeError {
                failure: Failure::TakeWhileMN,
                section: Section::Minutes,
                at: (at + 3) as usize,
            },
        )
    } else {
        let seconds = two_digits(i, at + 1) * 3600 + two_digits(i, at + 3) * 60;
        let sign = if i[at] == 45u8 {
            Sign::Minus
        } else {
            Sign::Plus
        };
        let offset = if i[at] == 45u8 {
            -seconds
        } else {
            seconds
        };
        Outcome::Parsed {
            rest: i.skip(at + 5),
            name,
            email,
            time: Time { time, offset: offset as i32, sign },
        }
    }
}

/// What the bytes `i` are as a signature. The name ends before the first
/// ` <`, the email before the first `> ` behind that, the timestamp before
/// the next space; the sign and four digits follow, and what comes after
/// them is left over.
pub open spec fn parse_signature(i: Seq<u8>) -> Outcome {
    match find_pair(i, 0, 32u8, 60u8) {
        None => Outcome::Failed(
            DecodeError { failure: Failure::TakeUntil, section: Section::Name, at: 0 },
        ),
        Some(p) => match find_pair(i, p + 2, 62u8, 32u8) {
            None => Outcome::Failed(
                DecodeError {
                    failure: Failure::TakeUntil,
                    section: Section::Email,
                    at: (p + 2) as usize,
                },
            ),
            Some(q) => match find_byte(i, q + 2, 32u8) {
                None => Outcome::Failed(
                    DecodeError {
                        failure: Failure::TakeUntil,
                        section: Section::Timestamp,
                        at: (q + 2) as usize,
                    },
                ),
                Some(r) => match decimal_u32(i.subrange(q + 2, r)) {
                    None => Outcome::Failed(
                        DecodeError {
                            failure: Failure::MapRes,
                            section: Section::Timestamp,
                            at: (q + 2) as usize,
                        },
                    ),
                    Some(t) => parse_zone(i, r + 1, i.subrange(0, p), i.subrange(p + 2, q), t),
                },
            },
        },
    }
}

fn position_of_pair(s: &[u8], from: usize, a: u8, b: u8) -> (r: Option<usize>)
    requires
        from <= s.len(),
    ensures
        match find_pair(s@, from as int, a, b) {
            Some(p) => r == Some(p as usize) && from <= p && p + 2 <= s.len(),
            None => r is None,
        },
{
    let mut i: usize = from;
    while i < s.len() && i + 1 < s.len()
        invariant
            from <= i <= s.len(),
            find_pair(s@, from as int, a, b) == find_pair(s@, i as int, a, b),
        decreases s.len() - i,
    {
        if s[i] == a && s[i + 1] == b {
            return Some(i);
        }
        i = i + 1;
    }
    None
}

fn position_of_byte(s: &[u8], from: usize, a: u8) -> (r: Option<usize>)
    requires
        from <= s.len(),
    ensures
        match find_byte(s@, from as int, a) {
            Some(p) => r == Some(p as usize) && from <= p && p < s.len(),
            None => r is None,
        },
{
    let mut i: usize = from;
    while i < s.len()
        invariant
            from <= i <= s.len(),
            find_byte(s@, from as int, a) == find_byte(s@, i as int, a),
        decreases s.len() - i,
    {
        if s[i] == a {
            return Some(i);
        }
        i = i + 1;
    }
    None
}

/// The number of the two digits at `at`, if two digits stand there.
fn two_digit_number(s: &[u8], at: usize) -> (r: Option<i32>)
    requires
        at <= s.len(),
    ensures
        r is Some <==> two_digits_at(s@, at as int),
        r matches Some(v) ==> v == two_digits(s@, at as int) && 0 <= v <= 99,
{
    if s.len() - at < 2 {
        return None;
    }
    if !(48 <= s[at] && s[at] <= 57 && 48 <= s[at + 1] && s[at + 1] <= 57) {
        return None;
    }
    let digits = slice_subrange(s, at, at + 2);
    proof {
        assert(digits@.drop_last() =~= seq![s@[at as int]]);
        assert(digits@.drop_last().drop_last() =~= Seq::<u8>::empty());
        reveal_with_fuel(decimal_value, 3);
        assert(decimal_value(digits@) == two_digits(s@, at as int));
        assert(all_digits(digits@));
    }
    match parse_u32(digits) {
        Some(v) => Some(v as i32),
        None => None,
    }
}

/// Parses a signature from the start of `i`, and hands it out with what
/// is left of `i` behind it.
pub fn signature<'a>(i: &'a [u8]) -> (r: Result<(&'a [u8], Signature<'a>), DecodeError>)
    ensures
        match parse_signature(i@) {
            Outcome::Parsed { rest, name, email, time } => r matches Ok(found) && found.0@ == rest
                && found.1.name@ == name && found.1.email@ == email && found.1.time == time,
            Outcome::Failed(e) => r == Err::<(&'a [u8], Signature<'a>), DecodeError>(e),
        },
{
    let p = match position_of_pair(i, 0, 32u8, 60u8) {
        Some(p) => p,
        None => {
            return Err(
                DecodeError { failure: Failure::TakeUntil, section: Section::Name, at: 0 },
            );
        },
    };
    let q = match position_of_pair(i, p + 2, 62u8, 32u8) {
        Some(q) => q,
        None => {
            return Err(
                DecodeError { failure: Failure::TakeUntil, section: Section::Email, at: p + 2 },
            );
        },
    };
    let r = match position_of_byte(i, q + 2, 32u8) {
        Some(r) => r,
        None => {
            return Err(
                DecodeError {
                    failure: Failure::TakeUntil,
                    section: Section::Timestamp,
                    at: q + 2,
                },
            );
        },
    };
    let time = match parse_u32(slice_subrange(i, q + 2, r)) {
        Some(t) => t,
        None => {
            return Err(
                DecodeError { failure: Failure::MapRes, section: Section::Timestamp, at: q + 2 },
            );
        },
    };
    let at: usize = r + 1;
    if !(at < i.len() && (i[at] == 45u8 || i[at] == 43u8)) {
        return Err(DecodeError { failure: Failure::Tag, section: Section::Zone, at });
    }
    let sign = if i[at] == 45u8 {
        Sign::Minus
    } else {
        Sign::Plus
    };
    let hours = match two_digit_number(i, at + 1) {
        Some(h) => h,
        None => {
            return Err(
                DecodeError {
                    failure: Failure::TakeWhileMN,
                    section: Section::Hours,
                    at: at + 1,
                },
            );
        },
    };
    let minutes = match two_digit_number(i, at + 3) {
        Some(m) => m,
        None => {
            return Err(
                DecodeError {
                    failure: Failure::TakeWhileMN,
                    section: Section::Minutes,
                    at: at + 3,
                },
            );
        },
    };
    let seconds: i32 = hours * 3600 + minutes * 60;
    let offset: i32 = match sign {
        Sign::Minus => -seconds,
        Sign::Plus => seconds,
    };
    let name = slice_subrange(i, 0, p);
    let email = slice_subrange(i, p + 2, q);
    let rest = slice_subrange(i, at + 5, i.len());
    assert(rest@ =~= i@.skip(at + 5));
    Ok((rest, Signature { name, email, time: Time { time, offset, sign } }))
}

impl Section {
    /// The name of the part, as it stands in messages.
    pub open spec fn label(self) -> Seq<u8> {
        match self {
            Section::Name => "<name>".spec_bytes(),
            Section::Email => "<email>".spec_bytes(),
            Section::Timestamp => "<timestamp>".spec_bytes(),
            Section::Zone => "+|-".spec_bytes(),
            Section::Hours => "HH".spec_bytes(),
            Section::Minutes => "MM".spec_bytes(),
        }
    }

    fn label_bytes(self) -> (b: &'static [u8])
        ensures
            b@ == self.label(),
    {
        match self {
            Section::Name => "<name>".as_bytes(),
            Section::Email => "<email>".as_bytes(),
            Section::Timestamp => "<timestamp>".as_bytes(),
            Section::Zone => "+|-".as_bytes(),
            Section::Hours => "HH".as_bytes(),
            Section::Minutes => "MM".as_bytes(),
        }
    }
}

impl Failure {
    /// The name of the failure, as it stands in messages.
    pub open spec fn label(self) -> Seq<u8> {
        match self {
            Failure::TakeUntil => "TakeUntil".spec_bytes(),
            Failure::MapRes => "MapRes".spec_bytes(),
            Failure::Tag => "Tag".spec_bytes(),
            Failure::TakeWhileMN => "TakeWhileMN".spec_bytes(),
        }
    }

    fn label_bytes(self) -> (b: &'static [u8])
        ensures
            b@ == self.label(),
    {
        match self {
            Failure::TakeUntil => "TakeUntil".as_bytes(),
            Failure::MapRes => "MapRes".as_bytes(),
            Failure::Tag => "Tag".as_bytes(),
            Failure::TakeWhileMN => "TakeWhileMN".as_bytes(),
        }
    }
}

/// One line of a message: what it says, and the input from the place it
/// speaks of.
pub open spec fn message_line(says: Seq<u8>, tail: Seq<u8>) -> Seq<u8> {
    says + " at: ".spec_bytes() + tail + "\n".spec_bytes()
}

/// The line that names a part of the grammar.
pub open spec fn section_line(label: Seq<u8>, tail: Seq<u8>) -> Seq<u8> {
    "in section '".spec_bytes() + label + "', at: ".spec_bytes() + tail + "\n".spec_bytes()
}

impl DecodeError {
    /// The message for this error on `input`: the failure, with a second
    /// line where either sign was tried, then the part it happened in, then
    /// the whole form, each with the input from its place on.
    pub open spec fn rendered(self, input: Seq<u8>) -> Seq<u8> {
        let at = if self.at <= input.len() {
            self.at as int
        } else {
            input.len() as int
        };
        let tail = input.skip(at);
        "Parse error:\n".spec_bytes() + message_line(self.failure.label(), tail) + (if self.failure
            == Failure::Tag {
            message_line("Alt".spec_bytes(), tail)
        } else {
            Seq::empty()
        }) + section_line(self.section.label(), tail) + section_line(
            "<name> <<email>> <timestamp> <+|-><HHMM>".spec_bytes(),
            input,
        )
    }

    /// Writes the message for this error on `input`.
    pub fn render(&self, input: &[u8]) -> (out: Vec<u8>)
        ensures
            out@ == self.rendered(input@),
    {
        let at: usize = if self.at <= input.len() {
            self.at
        } else {
            input.len()
        };
        let tail = slice_subrange(input, at, input.len());
        assert(tail@ =~= input@.skip(at as int));
        let mut out: Vec<u8> = Vec::new();
        append(&mut out, "Parse error:\n".as_bytes());
        push_line(&mut out, self.failure.label_bytes(), tail);
        if self.failure == Failure::Tag {
            push_line(&mut out, "Alt".as_bytes(), tail);
        }
        push_section(&mut out, self.section.label_bytes(), tail);
        push_section(&mut out, "<name> <<email>> <timestamp> <+|-><HHMM>".as_bytes(), input);
        assert(out@ =~= self.rendered(input@));
        out
    }

    /// The message for this error on `input`, as text: what `render`
    /// writes, read as UTF-8, with a replacement character for whatever in
    /// `input` is none. A message that is UTF-8 keeps its bytes.
    pub fn message(&self, input: &[u8]) -> (text: String)
        ensures
            text@ == lossy_text_of(self.rendered(input@)),
            valid_utf8(self.rendered(input@)) ==> encode_utf8(text@) == self.rendered(input@),
    {
        let out = self.render(input);
        lossy_text(out.as_slice())
    }
}

fn push_line(out: &mut Vec<u8>, says: &[u8], tail: &[u8])
    ensures
        final(out)@ == old(out)@ + message_line(says@, tail@),
{
    append(out, says);
    append(out, " at: ".as_bytes());
    append(out, tail);
    append(out, "\n".as_bytes());
    assert(out@ =~= old(out)@ + message_line(says@, tail@));
}

fn push_section(out: &mut Vec<u8>, label: &[u8], tail: &[u8])
    ensures
        final(out)@ == old(out)@ + section_line(label@, tail@),
{
    append(out, "in section '".as_bytes());
    append(out, label);
    append(out, "', at: ".as_bytes());
    append(out, tail);
    append(out, "\n".as_bytes());
    assert(out@ =~= old(out)@ + section_line(label@, tail@));
}

// The text that `String::from_utf8_lossy` makes of `bytes`.
pub uninterp spec fn lossy_text_of(bytes: Seq<u8>) -> Seq<char>;

/// `String::from_utf8_lossy`, made an owned `String`: the text of `bytes`,
/// with a replacement character for whatever is not UTF-8. The text depends
/// on the bytes alone, and bytes that are UTF-8 already are kept as they
/// are.
#[verifier::external_body]
fn lossy_text(bytes: &[u8]) -> (text: String)
    ensures
        text@ == lossy_text_of(bytes@),
        valid_utf8(bytes@) ==> encode_utf8(text@) == bytes@,
{
    String::from_utf8_lossy(bytes).into_owned()
}

} // verus!
