use vstd::prelude::*;

verus! {

/// Failures of a relay board operation.
#[derive(Debug, PartialEq, Eq)]
pub enum DeviceError {
    ParsingError,
    UnableToSendError,
    UnknownError,
    UnsuportedCommand,
}

} // verus!
