use vstd::prelude::*;

verus! {

/// Class of an HTTP answer.
#[derive(Clone, Copy, Debug, PartialEq, Eq, Structural)]
pub enum Status {
    Success,
    BadRequest,
    Unauthorized,
    InternalError,
}

pub open spec fn status_code(s: Status) -> u16 {
    match s {
        Status::Success => 200,
        Status::BadRequest => 400,
        Status::Unauthorized => 401,
        Status::InternalError => 500,
    }
}

impl Status {
    /// The HTTP status code of this class.
    pub fn code(&self) -> (r: u16)
        ensures
            r == status_code(*self),
    {
        match self {
            Status::Success => 200,
            Status::BadRequest => 400,
            Status::Unauthorized => 401,
            Status::InternalError => 500,
        }
    }
}

/// An error answer: its class and the reason shown to the caller.
pub struct Refusal {
    pub status: Status,
    pub reason: String,
}

pub open spec fn is_refusal(r: Refusal, status: Status, reason: Seq<char>) -> bool {
    r.status == status && r.reason@ == reason
}

/// What the node answered to one call.
pub enum NodeReply<T> {
    /// The call succeeded with the expected kind of answer.
    Answer(T),
    /// The call succeeded with another kind of answer.
    Unexpected,
    /// The call failed, with the node's error text.
    Failed(String),
}

/// A refusal of class `status` whose reason is `reason`.
pub fn refuse(status: Status, reason: &str) -> (r: Refusal)
    ensures
        is_refusal(r, status, reason@),
{
    Refusal { status, reason: String::from_str(reason) }
}

/// A refusal of class `status` whose reason is `lead` followed by `detail`.
pub fn refuse_with(status: Status, lead: &str, detail: &str) -> (r: Refusal)
    ensures
        is_refusal(r, status, lead@ + detail@),
{
    Refusal { status, reason: crate::text::join(lead, detail) }
}

} // verus!
