use vstd::prelude::*;

verus! {

/// The message carried by the error that a call returns when its handler
/// unwound instead of returning.
pub const UNWIND_MESSAGE: &'static str = "FFI: caught unwinding panic";

/// The error of a failed call: either the handler returned it, or the handler
/// unwound and the call boundary made it. Only the fact of failure is owed to
/// the caller; the message is a diagnostic.
#[derive(Debug, Clone)]
pub struct CallError {
    message: String,
}

/// The outcome of a call: a value on success, a `CallError` on failure.
pub type CallResult<T> = Result<T, CallError>;

impl View for CallError {
    type V = Seq<char>;

    closed spec fn view(&self) -> Seq<char> {
        self.message@
    }
}

impl CallError {
    /// An error that carries `message`.
    pub fn new(message: &str) -> (r: CallError)
        ensures
            r@ == message@,
    {
        CallError { message: message.to_owned() }
    }

    /// The error a call returns when its handler unwound.
    pub fn unwound() -> (r: CallError)
        ensures
            r@ == UNWIND_MESSAGE@,
    {
        CallError::new(UNWIND_MESSAGE)
    }

    /// The message this error carries.
    pub fn message(&self) -> (r: String)
        ensures
            r@ == self@,
    {
        self.message.clone()
    }
}

} // verus!
