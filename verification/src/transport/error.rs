use vstd::prelude::*;

verus! {

/// Failures of a transport.
#[derive(Debug, PartialEq, Eq)]
pub enum TransportError {
    Timeout,
    InvalidCrc,
    UnknownError,
    UnableToGetBaudRate,
    UnableToSetTimeout,
}

} // verus!
