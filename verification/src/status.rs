//! The status taxonomy and the mapping from handler outcomes to wire
//! statuses. Every call terminates by reporting exactly one wire status.

use vstd::prelude::*;

use crate::message::Msg;

verus! {

/// Wire status codes. `Okay` is the success code; the rest are the failure
/// taxonomy a handler or the dispatcher itself may report.
#[derive(Clone, Copy, PartialEq, Eq, Structural, Debug)]
pub enum StatusCode {
    Okay,
    Cancelled,
    InvalidArgument,
    DeadlineExceeded,
    NotFound,
    AlreadyExists,
    PermissionDenied,
    ResourceExhausted,
    Unimplemented,
    Internal,
    Unavailable,
}

/// The numeric wire representation of each status code.
pub open spec fn spec_code_number(c: StatusCode) -> u32 {
    match c {
        StatusCode::Okay => 0,
        StatusCode::Cancelled => 1,
        StatusCode::InvalidArgument => 3,
        StatusCode::DeadlineExceeded => 4,
        StatusCode::NotFound => 5,
        StatusCode::AlreadyExists => 6,
        StatusCode::PermissionDenied => 7,
        StatusCode::ResourceExhausted => 8,
        StatusCode::Unimplemented => 12,
        StatusCode::Internal => 13,
        StatusCode::Unavailable => 14,
    }
}

impl StatusCode {
    /// The numeric code emitted on the wire.
    pub fn number(&self) -> (n: u32)
        ensures
            n == spec_code_number(*self),
    {
        match self {
            StatusCode::Okay => 0,
            StatusCode::Cancelled => 1,
            StatusCode::InvalidArgument => 3,
            StatusCode::DeadlineExceeded => 4,
            StatusCode::NotFound => 5,
            StatusCode::AlreadyExists => 6,
            StatusCode::PermissionDenied => 7,
            StatusCode::ResourceExhausted => 8,
            StatusCode::Unimplemented => 12,
            StatusCode::Internal => 13,
            StatusCode::Unavailable => 14,
        }
    }
}

/// The terminal code-and-message pair every call reports to its caller.
pub struct WireStatus {
    pub code: StatusCode,
    pub message: String,
}

/// Errors the dispatcher itself can raise. `DuplicatePath` is a
/// construction-time error; the rest terminate a single call.
#[derive(Clone, Copy, PartialEq, Eq, Structural, Debug)]
pub enum DispatchError {
    DuplicatePath,
    ProtocolViolation,
    UnsupportedEncoding,
    MessageTooLarge,
}

/// The status code each dispatcher error maps to on the wire.
pub open spec fn spec_error_code(e: DispatchError) -> StatusCode {
    match e {
        DispatchError::DuplicatePath => StatusCode::Internal,
        DispatchError::ProtocolViolation => StatusCode::InvalidArgument,
        DispatchError::UnsupportedEncoding => StatusCode::Unimplemented,
        DispatchError::MessageTooLarge => StatusCode::ResourceExhausted,
    }
}

/// The message text attached to each dispatcher error.
pub open spec fn spec_error_text(e: DispatchError) -> Seq<char> {
    match e {
        DispatchError::DuplicatePath => "duplicate path"@,
        DispatchError::ProtocolViolation => "protocol violation"@,
        DispatchError::UnsupportedEncoding => "unsupported compression encoding"@,
        DispatchError::MessageTooLarge => "message too large"@,
    }
}

/// `s` is the wire status synthesized for the dispatcher error `e`.
pub open spec fn is_error_status(s: WireStatus, e: DispatchError) -> bool {
    s.code == spec_error_code(e) && s.message@ == spec_error_text(e)
}

/// `s` is the success status.
pub open spec fn is_ok_status(s: WireStatus) -> bool {
    s.code == StatusCode::Okay && s.message@ == Seq::<char>::empty()
}

/// `s` is the status reported for a cancelled call, whether cancellation
/// came from the peer, a disconnect, or a deadline.
pub open spec fn is_cancelled_status(s: WireStatus) -> bool {
    s.code == StatusCode::Cancelled && s.message@ == "cancelled"@
}

/// `s` is the status synthesized for a path no method is registered under.
pub open spec fn is_unimplemented_status(s: WireStatus) -> bool {
    s.code == StatusCode::Unimplemented && s.message@ == "unimplemented"@
}

/// Builds the success status.
pub fn ok_status() -> (s: WireStatus)
    ensures
        is_ok_status(s),
{
    WireStatus { code: StatusCode::Okay, message: String::new() }
}

/// Builds the cancellation status.
pub fn cancelled_status() -> (s: WireStatus)
    ensures
        is_cancelled_status(s),
{
    WireStatus { code: StatusCode::Cancelled, message: String::from_str("cancelled") }
}

/// Builds the status for an unmatched route, without any handler involved.
pub fn unimplemented_status() -> (s: WireStatus)
    ensures
        is_unimplemented_status(s),
{
    WireStatus { code: StatusCode::Unimplemented, message: String::from_str("unimplemented") }
}

/// Builds the wire status for a dispatcher error.
pub fn error_status(e: DispatchError) -> (s: WireStatus)
    ensures
        is_error_status(s, e),
{
    match e {
        DispatchError::DuplicatePath => WireStatus {
            code: StatusCode::Internal,
            message: String::from_str("duplicate path"),
        },
        DispatchError::ProtocolViolation => WireStatus {
            code: StatusCode::InvalidArgument,
            message: String::from_str("protocol violation"),
        },
        DispatchError::UnsupportedEncoding => WireStatus {
            code: StatusCode::Unimplemented,
            message: String::from_str("unsupported compression encoding"),
        },
        DispatchError::MessageTooLarge => WireStatus {
            code: StatusCode::ResourceExhausted,
            message: String::from_str("message too large"),
        },
    }
}

/// A handler invocation's result for call shapes that owe one response:
/// a success payload, a domain failure, or cancellation.
pub enum Outcome {
    Success(Msg),
    Failure(StatusCode, String),
    Cancelled,
}

/// A handler invocation's result for call shapes that may stream responses.
pub enum StreamOutcome {
    Streamed(Vec<Msg>),
    Failure(StatusCode, String),
    Cancelled,
}

/// `s` and `payload` are the wire status and payload the status mapper owes
/// for the outcome `o`: success maps to the success status carrying the
/// payload, a failure carries its code and message verbatim, and
/// cancellation maps to the cancellation status.
pub open spec fn outcome_status_post(o: Outcome, s: WireStatus, payload: Option<Msg>) -> bool {
    match o {
        Outcome::Success(m) => is_ok_status(s) && payload == Some(m),
        Outcome::Failure(c, text) => s.code == c && s.message == text && payload is None,
        Outcome::Cancelled => is_cancelled_status(s) && payload is None,
    }
}

/// Maps a handler outcome to its wire status and payload. Total: every
/// outcome has exactly one corresponding status.
pub fn map_outcome(o: Outcome) -> (r: (WireStatus, Option<Msg>))
    ensures
        outcome_status_post(o, r.0, r.1),
{
    match o {
        Outcome::Success(m) => (ok_status(), Some(m)),
        Outcome::Failure(c, text) => (WireStatus { code: c, message: text }, None),
        Outcome::Cancelled => (cancelled_status(), None),
    }
}

/// The outcome-to-status mapping is a function: any two statuses mapped
/// from the same outcome agree on code, message and payload.
pub proof fn lemma_outcome_status_unique(
    o: Outcome,
    s1: WireStatus,
    p1: Option<Msg>,
    s2: WireStatus,
    p2: Option<Msg>,
)
    requires
        outcome_status_post(o, s1, p1),
        outcome_status_post(o, s2, p2),
    ensures
        s1.code == s2.code,
        s1.message@ == s2.message@,
        p1 == p2,
{
}

} // verus!
