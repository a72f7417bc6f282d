//! The failures that the engine reports.

use lifx_core::Error as CodecError;
use vstd::prelude::*;

verus! {

/// The codec's own failure, carried through unchanged.
#[verifier::external_type_specification]
#[verifier::external_body]
pub struct ExCodecError(CodecError);

/// The transport's failure, carried through unchanged.
#[verifier::external_type_specification]
#[verifier::external_body]
pub struct ExIoError(std::io::Error);

/// What can go wrong while talking to a light.
#[derive(Debug)]
pub enum Error {
    /// A packet was transmitted only partially - perhaps the MTU is too low.
    IncompleteTransmission,
    /// A message was sent, and an unexpected reply was received.
    WrongResponse,
    /// The codec refused a datagram.
    LifxError(CodecError),
    /// The transport failed.
    IoError(std::io::Error),
}

impl From<CodecError> for Error {
    fn from(e: CodecError) -> (r: Self)
        ensures
            r == Error::LifxError(e),
    {
        Error::LifxError(e)
    }
}

impl vstd::std_specs::convert::FromSpecImpl<CodecError> for Error {
    open spec fn obeys_from_spec() -> bool {
        true
    }

    open spec fn from_spec(e: CodecError) -> Self {
        Error::LifxError(e)
    }
}

impl From<std::io::Error> for Error {
    fn from(e: std::io::Error) -> (r: Self)
        ensures
            r == Error::IoError(e),
    {
        Error::IoError(e)
    }
}

impl vstd::std_specs::convert::FromSpecImpl<std::io::Error> for Error {
    open spec fn obeys_from_spec() -> bool {
        true
    }

    open spec fn from_spec(e: std::io::Error) -> Self {
        Error::IoError(e)
    }
}

} // verus!
