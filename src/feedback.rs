//! Feedback sent from the mini program, and the messages exchanged on it.
use vstd::prelude::*;

use crate::text::same_text;

verus! {

/// The handling status of a feedback. Stored as 0 to 3.
#[derive(Debug, Clone, Copy, PartialEq, Eq, Structural)]
pub enum FeedbackStatus {
    /// Waiting to be confirmed.
    Pending,
    /// Confirmed, waiting to be handled.
    InProgress,
    /// Being handled.
    Resolving,
    /// Handled and closed.
    Closed,
}

/// The stored code of a feedback status.
pub open spec fn feedback_status_code(s: FeedbackStatus) -> u32 {
    match s {
        FeedbackStatus::Pending => 0,
        FeedbackStatus::InProgress => 1,
        FeedbackStatus::Resolving => 2,
        FeedbackStatus::Closed => 3,
    }
}

/// The value a stored code names, if it names one.
pub open spec fn feedback_status_decoded(code: u32) -> Option<FeedbackStatus> {
    if code == 0 {
        Some(FeedbackStatus::Pending)
    } else if code == 1 {
        Some(FeedbackStatus::InProgress)
    } else if code == 2 {
        Some(FeedbackStatus::Resolving)
    } else if code == 3 {
        Some(FeedbackStatus::Closed)
    } else {
        None
    }
}

/// Decoding with the fallback: an unknown code reads as `Pending`, so that the feedback is looked at again.
pub open spec fn feedback_status_or_default(code: u32) -> FeedbackStatus {
    match feedback_status_decoded(code) {
        Some(s) => s,
        None => FeedbackStatus::Pending,
    }
}

impl FeedbackStatus {
    /// The value a stored code names, or `None` for any other code.
    pub fn decode(code: u32) -> (r: Option<FeedbackStatus>)
        ensures
            r == feedback_status_decoded(code),
    {
        if code == 0 {
            Some(FeedbackStatus::Pending)
        } else if code == 1 {
            Some(FeedbackStatus::InProgress)
        } else if code == 2 {
            Some(FeedbackStatus::Resolving)
        } else if code == 3 {
            Some(FeedbackStatus::Closed)
        } else {
            None
        }
    }

    /// The stored code of this value.
    pub fn code(self) -> (r: u32)
        ensures
            r == feedback_status_code(self),
    {
        match self {
            FeedbackStatus::Pending => 0,
            FeedbackStatus::InProgress => 1,
            FeedbackStatus::Resolving => 2,
            FeedbackStatus::Closed => 3,
        }
    }
}

impl From<u32> for FeedbackStatus {
    /// Decodes with the `Pending` fallback for unknown codes.
    fn from(code: u32) -> (r: FeedbackStatus) {
        match FeedbackStatus::decode(code) {
            Some(s) => s,
            None => FeedbackStatus::Pending,
        }
    }
}

impl vstd::std_specs::convert::FromSpecImpl<u32> for FeedbackStatus {
    open spec fn obeys_from_spec() -> bool {
        true
    }

    open spec fn from_spec(code: u32) -> FeedbackStatus {
        feedback_status_or_default(code)
    }
}

impl From<FeedbackStatus> for u32 {
    fn from(s: FeedbackStatus) -> (r: u32) {
        s.code()
    }
}

impl vstd::std_specs::convert::FromSpecImpl<FeedbackStatus> for u32 {
    open spec fn obeys_from_spec() -> bool {
        true
    }

    open spec fn from_spec(s: FeedbackStatus) -> u32 {
        feedback_status_code(s)
    }
}

/// The kind of a message on a feedback. Written as `comment`.
#[derive(Debug, Clone, Copy, PartialEq, Eq, Structural)]
pub enum FeedbackMsgType {
    /// A reply from the back office.
    Comment,
}

impl FeedbackMsgType {
    /// The text form of this kind.
    pub fn as_str(self) -> (r: &'static str)
        ensures
            r@ == "comment"@,
    {
        match self {
            FeedbackMsgType::Comment => "comment",
        }
    }

    /// The kind that `s` names, if it names one.
    pub fn decode(s: &str) -> (r: Option<FeedbackMsgType>)
        ensures
            r == if s@ == "comment"@ {
                Some(FeedbackMsgType::Comment)
            } else {
                None
            },
    {
        if same_text(s, "comment") {
            Some(FeedbackMsgType::Comment)
        } else {
            None
        }
    }

    /// Decoding with the fallback: any text reads as `Comment`, the only kind.
    pub fn from_text(s: &str) -> (r: FeedbackMsgType)
        ensures
            r == FeedbackMsgType::Comment,
    {
        FeedbackMsgType::Comment
    }
}

} // verus!
