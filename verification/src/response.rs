//! The envelope in which the relay answers every request it has handled.

use vstd::prelude::*;
use vstd::string::*;

verus! {

/// The relay's answer: a message and, where there is one, a payload.
///
/// A forward that reached the webhook is answered with the message `ok` and
/// the webhook's own code as payload, whatever that code is. Every failure is
/// answered with a message that describes it and no payload.
#[derive(Debug, Clone)]
pub struct CustomResponse<T> {
    pub msg: String,
    pub data: Option<T>,
}

impl<T> CustomResponse<T> {
    /// An envelope with the given message and payload.
    pub fn new(msg: &str, data: Option<T>) -> (response: Self)
        ensures
            response.msg@ == msg@,
            response.data == data,
    {
        CustomResponse { msg: String::from_str(msg), data }
    }

    /// The envelope of a success: the message is `ok`.
    pub fn ok(data: Option<T>) -> (response: Self)
        ensures
            response.msg@ == "ok"@,
            response.data == data,
    {
        CustomResponse { msg: String::from_str("ok"), data }
    }

    /// The envelope of a failure: the given message and no payload.
    pub fn err(msg: &str) -> (response: Self)
        ensures
            response.msg@ == msg@,
            response.data is None,
    {
        CustomResponse { msg: String::from_str(msg), data: None }
    }
}

} // verus!
