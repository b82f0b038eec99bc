use vstd::prelude::*;

verus! {

/// The ways a transaction with the remote side can fail.
#[derive(Debug, Clone, Copy, PartialEq, Eq, Structural)]
pub enum OsvError {
    /// The transport could not open a connection to the target address.
    ConnectionError,
    /// An exchange was attempted while no connection is held.
    NotConnected,
    /// The variable name is empty.
    EmptyName,
    /// A write was requested with an empty value.
    EmptyValue,
    /// The request does not fit the protocol's 16-bit length fields.
    RequestTooLarge,
    /// The remote side signalled that the variable does not exist.
    VariableNotFound,
    /// The response is shorter than its fixed seven-byte header.
    InvalidResponseLength,
    /// The response declares more value bytes than it carries.
    ResponseLengthMismatch,
}

} // verus!
