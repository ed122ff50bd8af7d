//! Client side of a Git-style smart wire protocol: framed request writers with
//! scheduled teardown packets, response readers with progress interception,
//! and protocol V2 command invocation on top of a pluggable transport.

pub mod bytes;
pub mod error;
pub mod message;
pub mod packet;
pub mod reader;
pub mod sideband;
pub mod signature;
pub mod transport;
pub mod writer;

pub use error::Error;
pub use message::{MessageKind, WriteMode};
pub use reader::{ExtendedBufRead, ResponseReader};
pub use writer::{RequestWriter, WritePacketOnDrop};
pub use transport::{Capabilities, Capability, Protocol, Service, SetServiceResponse, Transport, TransportV2Ext};
