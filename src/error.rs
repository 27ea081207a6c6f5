//! Errors of the writer.
use crate::types::ChannelName;
use vstd::prelude::*;

verus! {

#[verifier::external_type_specification]
#[verifier::external_body]
pub struct ExIoError(std::io::Error);

/// What can go wrong while building or writing a document.
#[derive(Debug)]
pub enum Error {
    /// The sink refused a write.
    IOError(std::io::Error),
    /// A channel of that name is already in the document.
    DuplicateChannel(ChannelName),
}

impl From<std::io::Error> for Error {
    fn from(e: std::io::Error) -> (r: Error) {
        Error::IOError(e)
    }
}

impl vstd::std_specs::convert::FromSpecImpl<std::io::Error> for Error {
    open spec fn obeys_from_spec() -> bool {
        true
    }

    open spec fn from_spec(e: std::io::Error) -> Error {
        Error::IOError(e)
    }
}

} // verus!
