use vstd::prelude::*;

verus! {

/// The ways an exchange with the IPC endpoint can fail.
#[derive(Debug, Clone, Copy, PartialEq, Eq, Structural)]
pub enum RpcError {
    /// The endpoint refused the connection or does not exist (yet).
    TransientConnection,
    /// Any other failure to open the endpoint; not retried.
    FatalConnection,
    /// An exchange was attempted with no open socket.
    NotConnected,
    /// An activity update was attempted before a successful handshake.
    HandshakeIncomplete,
    /// The response could not be parsed or lacks an expected field.
    Protocol,
    /// A payload is too long to be framed.
    Encoding,
    /// A frame is too short or its payload is not UTF-8.
    Decoding,
}

} // verus!
