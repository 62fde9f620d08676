use vstd::prelude::*;

use serde::de::value::Error as DeError;

verus! {

/// serde's plain deserialization error, carried through unchanged.
#[verifier::external_type_specification]
#[verifier::external_body]
pub struct ExDeError(DeError);

/// Errors shared by the services built on this layer.
#[derive(Debug)]
pub enum Error {
    Io(std::io::Error),
    Serialization(DeError),
    Custom(String),
}

impl Error {
    /// An error that carries only a message.
    pub fn custom(msg: &str) -> (r: Error)
        ensures
            r is Custom,
            r->Custom_0@ == msg@,
    {
        Error::Custom(msg.to_owned())
    }
}

} // verus!
