use vstd::prelude::*;
use crate::error::{CallError, CallResult, UNWIND_MESSAGE};
use crate::response::Response;

verus! {

/// How a handler run behind the call boundary ended.
#[derive(Debug)]
pub enum HandlerOutcome {
    /// The handler returned this result.
    Returned(CallResult<Response>),
    /// The handler unwound; why is not kept.
    Unwound,
}

/// What a plugin's call hands its host once the handler has ended: the
/// handler's own result unchanged, or, where the handler unwound, an error
/// with the fixed unwinding message. It never fails in any other way.
pub fn contain_outcome(outcome: HandlerOutcome) -> (r: CallResult<Response>)
    ensures
        match outcome {
            HandlerOutcome::Returned(res) => r == res,
            HandlerOutcome::Unwound => r matches Err(e) && e@ == UNWIND_MESSAGE@,
        },
{
    match outcome {
        HandlerOutcome::Returned(res) => res,
        HandlerOutcome::Unwound => Err(CallError::unwound()),
    }
}

} // verus!
