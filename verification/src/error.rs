//! What can go wrong between a client and the remote service.

use vstd::prelude::*;
use vstd::string::StringExecFns;

verus! {

/// The failures of a transport and of the requests made through it.
#[derive(Debug)]
pub enum Error {
    /// The stream to or from the server failed.
    Io { err: std::io::Error },
    /// The advertised capabilities could not be parsed.
    Capabilities { message: String },
    /// A packet line could not be decoded.
    LineDecode { message: String },
    /// A line of the named kind was expected, and there was none.
    ExpectedLine(&'static str),
    /// A data line was expected, and a delimiter came.
    ExpectedDataLine,
    /// A command was invoked with arguments, for which no wire format exists.
    ArgumentsUnsupported,
}

impl Error {
    /// What the message says.
    pub open spec fn description(&self) -> Seq<char> {
        match self {
            Error::Io { .. } => "An IO error occurred when talking to the server"@,
            Error::Capabilities { .. } => "Capabilities could not be parsed"@,
            Error::LineDecode { .. } => "A packet line could not be decoded"@,
            Error::ExpectedLine(kind) => "A "@ + kind@ + " line was expected, but there was none"@,
            Error::ExpectedDataLine => "Expected a data line, but got a delimiter"@,
            Error::ArgumentsUnsupported => "Arguments to a command are not supported"@,
        }
    }

    /// The message that describes the failure.
    pub fn message(&self) -> (text: String)
        ensures
            text@ == self.description(),
    {
        match self {
            Error::Io { .. } => "An IO error occurred when talking to the server".to_owned(),
            Error::Capabilities { .. } => "Capabilities could not be parsed".to_owned(),
            Error::LineDecode { .. } => "A packet line could not be decoded".to_owned(),
            Error::ExpectedLine(kind) => "A ".to_owned().concat(kind).concat(
                " line was expected, but there was none",
            ),
            Error::ExpectedDataLine => "Expected a data line, but got a delimiter".to_owned(),
            Error::ArgumentsUnsupported => "Arguments to a command are not supported".to_owned(),
        }
    }
}

} // verus!
