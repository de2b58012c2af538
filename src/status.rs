use vstd::prelude::*;

verus! {

/// Status codes that the session core reports, per item or per request.
#[derive(Debug, Clone, Copy, PartialEq, Eq, Structural)]
pub enum StatusCode {
    Good,
    BadNodeIdUnknown,
    BadAttributeIdInvalid,
    BadNotReadable,
    BadNotWritable,
    BadTypeMismatch,
    BadTimeout,
    BadTooManyPublishRequests,
    BadNothingToDo,
}

} // verus!
