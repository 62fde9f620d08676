use vstd::prelude::*;

verus! {

/// The standard library's I/O error, carried through unchanged.
#[verifier::external_type_specification]
#[verifier::external_body]
pub struct ExIoError(std::io::Error);

/// Every failure this layer reports.
#[derive(Debug)]
pub enum Error {
    /// The underlying stream failed.
    Io(std::io::Error),
    /// A value could not be encoded or decoded.
    Codec(String),
    /// The peer shut the connection down before a frame was complete.
    ConnectionClosed,
    /// A declared frame length beyond the ceiling.
    InvalidFrame(String),
    /// Timeouts and configuration errors.
    Custom(String),
}

impl From<std::io::Error> for Error {
    fn from(e: std::io::Error) -> (r: Error)
        ensures
            r == Error::Io(e),
    {
        Error::Io(e)
    }
}

impl vstd::std_specs::convert::FromSpecImpl<std::io::Error> for Error {
    open spec fn obeys_from_spec() -> bool {
        true
    }

    open spec fn from_spec(e: std::io::Error) -> Error {
        Error::Io(e)
    }
}

pub type Result<T> = std::result::Result<T, Error>;

} // verus!
