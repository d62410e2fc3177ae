//! Driver core for raster label printers of the P-touch / QL family.
//!
//! The crate holds the three parts of the driver in which a wrong byte is a
//! silent fault: the command encoder ([`commands`]), the decoder of the
//! 32-byte status payload ([`status`]) and the bit-packed raster image
//! ([`raster`]). Around them stand the transport abstraction
//! ([`interface`]), the session that sends encoded commands through a
//! transport ([`printer`]), and whole print jobs ([`job`]). Multi-byte
//! fields are little-endian throughout ([`wire`]).
use vstd::prelude::*;

pub mod wire;
pub mod status;
pub mod interface;
pub mod printer;
pub mod commands;
pub mod raster;
pub mod job;
pub mod prelude;

verus! {

/// An I/O failure as the transport reports it; carried, never inspected.
#[verifier::external_type_specification]
#[verifier::external_body]
pub struct ExIoError(std::io::Error);

/// What can go wrong in a printer operation.
#[derive(Debug)]
pub enum PTouchError {
    /// The transport failed to send or receive.
    IoError(std::io::Error),
    /// A status payload was not exactly 32 bytes long.
    InvalidStatusPayload,
    /// The side-channel query produced no value.
    SNMPError,
}

pub type Result<T> = std::result::Result<T, PTouchError>;

impl From<std::io::Error> for PTouchError {
    fn from(io_error: std::io::Error) -> (e: PTouchError) {
        PTouchError::IoError(io_error)
    }
}

impl vstd::std_specs::convert::FromSpecImpl<std::io::Error> for PTouchError {
    open spec fn obeys_from_spec() -> bool {
        true
    }

    open spec fn from_spec(io_error: std::io::Error) -> PTouchError {
        PTouchError::IoError(io_error)
    }
}

} // verus!
