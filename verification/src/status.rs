//! The status with which the gateway answers a request that it turns away.

use vstd::prelude::*;

verus! {

/// Why a request was turned away.
#[derive(Debug, Clone, Copy, PartialEq, Eq, Structural)]
pub enum Code {
    /// The request carries no valid credential.
    Unauthenticated,
    /// The gateway itself failed while handling the request.
    Internal,
}

/// A rejection: its code and a message for the caller.
#[derive(Debug)]
pub struct Status {
    pub code: Code,
    pub message: String,
}

impl View for Status {
    type V = (Code, Seq<char>);

    open spec fn view(&self) -> (Code, Seq<char>) {
        (self.code, self.message@)
    }
}

impl Status {
    /// A rejection for want of a valid credential.
    pub fn unauthenticated(message: String) -> (status: Status)
        ensures
            status@ == (Code::Unauthenticated, message@),
    {
        Status { code: Code::Unauthenticated, message }
    }

    /// A rejection for a failure inside the gateway.
    pub fn internal(message: String) -> (status: Status)
        ensures
            status@ == (Code::Internal, message@),
    {
        Status { code: Code::Internal, message }
    }
}

} // verus!
