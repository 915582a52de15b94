//! The error of a client whose server is gone.
use vstd::prelude::*;

verus! {

/// A request that could not be sent because the server is down; the request
/// is handed back.
pub struct SendError<ReqT> {
    pub req: ReqT,
}

impl<ReqT> SendError<ReqT> {
    /// The error that hands back `req`.
    pub fn new(req: ReqT) -> (err: Self)
        ensures
            err.req == req,
    {
        SendError { req }
    }

    /// The text that describes the error.
    pub fn message(&self) -> (text: String)
        ensures
            text@ == "rrch server down"@,
    {
        String::from_str("rrch server down")
    }
}

} // verus!
