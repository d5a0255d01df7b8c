//! What comes back from the webhook, and what the relay makes of it.

use crate::failure::ForwardError;
use vstd::prelude::*;

verus! {

/// The webhook's own answer: a code and a message. The code 0 means that the
/// webhook accepted the message; the relay passes every code on as it is.
#[derive(Debug, Clone)]
pub struct DingResp {
    pub errcode: i32,
    pub errmsg: String,
}

/// What one attempt to post a message produced.
#[derive(Debug)]
pub enum Exchange {
    /// No answer arrived. `cause` says why.
    Unreachable { cause: String },
    /// An answer arrived with the given status. `body` is the answer read as
    /// the webhook's JSON object, or the reason why it could not be read so.
    Replied { status: u16, body: Result<DingResp, String> },
}

/// Whether an HTTP status stands for success.
pub open spec fn is_success(status: u16) -> bool {
    200 <= status <= 299
}

/// The outcome of an exchange. It is the webhook's answer where an answer
/// with a status of success arrived and could be read. Else it is a failure:
/// of transport where nothing arrived, of status where the status is not one
/// of success, whatever the body, and of decoding where the body could not be
/// read.
pub open spec fn interpreted(exchange: Exchange) -> Result<DingResp, ForwardError> {
    match exchange {
        Exchange::Unreachable { cause } => Err(ForwardError::Transport { cause }),
        Exchange::Replied { status, body } => if !is_success(status) {
            Err(ForwardError::Status { code: status })
        } else {
            match body {
                Ok(resp) => Ok(resp),
                Err(cause) => Err(ForwardError::Decode { cause }),
            }
        },
    }
}

/// Decides what an exchange with the webhook amounts to.
pub fn interpret(exchange: Exchange) -> (outcome: Result<DingResp, ForwardError>)
    ensures
        outcome == interpreted(exchange),
{
    match exchange {
        Exchange::Unreachable { cause } => Err(ForwardError::Transport { cause }),
        Exchange::Replied { status, body } => {
            if status < 200 || status > 299 {
                Err(ForwardError::Status { code: status })
            } else {
                match body {
                    Ok(resp) => Ok(resp),
                    Err(cause) => Err(ForwardError::Decode { cause }),
                }
            }
        },
    }
}

} // verus!
