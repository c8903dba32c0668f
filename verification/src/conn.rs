use vstd::prelude::*;

verus! {

/// Why a connection is closed: a fault of the server, or of the client,
/// with a reason for the client.
#[derive(Debug)]
pub struct ErrorReason {
    pub internal_error: bool,
    pub reason: String,
}

/// The WebSocket close code for a fault of the server.
pub const CLOSE_CODE_ERROR: u16 = 1011;

/// The WebSocket close code for data the server could not accept.
pub const CLOSE_CODE_INVALID: u16 = 1007;

impl ErrorReason {
    /// The close code sent with this reason: 1011 for a fault of the
    /// server, 1007 for one of the client.
    pub fn close_code(&self) -> (r: u16)
        ensures
            r == if self.internal_error {
                CLOSE_CODE_ERROR
            } else {
                CLOSE_CODE_INVALID
            },
    {
        if self.internal_error {
            CLOSE_CODE_ERROR
        } else {
            CLOSE_CODE_INVALID
        }
    }
}

} // verus!
