use vstd::prelude::*;

verus! {

/// Status code of a native call that succeeded.
pub const STS_OK: i32 = 0;

/// Status code for an argument the native side cannot accept.
pub const STS_BAD_ARG: i32 = -5;

/// Status code for a required object that is missing.
pub const STS_NULL_PTR: i32 = -27;

/// A failure: the native status code and the message that goes with it.
#[derive(Debug)]
pub struct Error {
    pub code: i32,
    pub message: String,
}

impl Error {
    /// A failure with the given status code and message.
    pub fn new(code: i32, message: String) -> (r: Error)
        ensures
            r.code == code,
            r.message@ == message@,
    {
        Error { code, message }
    }

    /// The failure reported when a required object is missing; no native call is made.
    pub fn null_pointer() -> (r: Error)
        ensures
            r.code == STS_NULL_PTR,
    {
        Error { code: STS_NULL_PTR, message: "required object is not set".to_owned() }
    }

    /// The failure reported when an argument cannot be handed to the native side.
    pub fn bad_argument(message: &str) -> (r: Error)
        ensures
            r.code == STS_BAD_ARG,
            r.message@ == message@,
    {
        Error { code: STS_BAD_ARG, message: message.to_owned() }
    }
}

/// Turns what a native call reported (its status code, its message and its
/// value) into a `Result`: the value on status `STS_OK`, the failure otherwise.
pub fn into_result<T>(error_code: i32, error_msg: String, value: T) -> (r: Result<T, Error>)
    ensures
        error_code == STS_OK ==> r == Ok::<T, Error>(value),
        error_code != STS_OK ==> (r matches Err(e) && e.code == error_code && e.message@
            == error_msg@),
{
    if error_code == STS_OK {
        Ok(value)
    } else {
        Err(Error { code: error_code, message: error_msg })
    }
}

} // verus!
