//! The ways in which a forward to the webhook fails, and how each is
//! described to the caller of the relay.

use crate::utils::decimal::{decimal, decimal_text};
use vstd::prelude::*;
use vstd::string::*;

verus! {

/// A forward that failed. One attempt is made per message; nothing is tried
/// again.
#[derive(Debug, Clone)]
pub enum ForwardError {
    /// The message could not be written as a request body.
    Encode { cause: String },
    /// The webhook could not be reached: no connection, no name, no answer
    /// in time.
    Transport { cause: String },
    /// The webhook answered with a status outside 200 to 299.
    Status { code: u16 },
    /// The webhook's answer is not the JSON object that was expected.
    Decode { cause: String },
}

/// What every description of a failed forward begins with.
pub open spec fn failure_prefix() -> Seq<char> {
    "forward failed: "@
}

impl ForwardError {
    /// The part of the description that is particular to this failure.
    pub open spec fn detail(self) -> Seq<char> {
        match self {
            ForwardError::Encode { cause } => "cannot encode the message: "@ + cause@,
            ForwardError::Transport { cause } => cause@,
            ForwardError::Status { code } => "webhook answered with status "@ + decimal(
                code as nat,
            ),
            ForwardError::Decode { cause } => "cannot read the webhook's answer: "@ + cause@,
        }
    }

    /// The description of this failure, as the relay reports it.
    pub open spec fn described(self) -> Seq<char> {
        failure_prefix() + self.detail()
    }

    /// Describes the failure: the words `forward failed: `, then the cause.
    pub fn description(&self) -> (text: String)
        ensures
            text@ == self.described(),
            text@ != "ok"@,
    {
        let mut text = String::from_str("forward failed: ");
        match self {
            ForwardError::Encode { cause } => {
                text.append("cannot encode the message: ");
                text.append(cause.as_str());
            },
            ForwardError::Transport { cause } => {
                text.append(cause.as_str());
            },
            ForwardError::Status { code } => {
                text.append("webhook answered with status ");
                let digits = decimal_text(*code as u64);
                text.append(digits.as_str());
            },
            ForwardError::Decode { cause } => {
                text.append("cannot read the webhook's answer: ");
                text.append(cause.as_str());
            },
        }
        proof {
            assert(text@ =~= self.described());
            lemma_description_is_not_ok(*self);
        }
        text
    }
}

/// No failure is described by the word `ok`, so the message of an answer
/// tells a failed forward from one that reached the webhook.
pub proof fn lemma_description_is_not_ok(error: ForwardError)
    ensures
        error.described() != "ok"@,
{
    reveal_strlit("forward failed: ");
    reveal_strlit("ok");
    assert(error.described().len() >= 16);
}

} // verus!
