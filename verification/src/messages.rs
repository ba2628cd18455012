//! What a probe reports of one request.

use vstd::prelude::*;
use crate::config::{Target, TargetView};

verus! {

/// The status code of a response.
pub type ResponseCode = u16;

/// A moment, as seconds since the Unix epoch and the nanoseconds into
/// that second.
#[derive(Clone, Copy, Debug, PartialEq, Eq, Structural)]
pub struct Timestamp {
    pub seconds: i64,
    pub nanos: u32,
}

impl Timestamp {
    /// The start of the second `seconds`.
    pub fn from_seconds(seconds: i64) -> (r: Timestamp)
        ensures
            r == (Timestamp { seconds, nanos: 0 }),
    {
        Timestamp { seconds, nanos: 0 }
    }

    /// The whole seconds of this moment.
    pub fn timestamp(&self) -> (r: i64)
        ensures
            r == self.seconds,
    {
        self.seconds
    }
}

/// A request that was answered.
#[derive(Clone, Debug, PartialEq, Eq)]
pub struct Entry {
    pub time: Timestamp,
    pub response_code: ResponseCode,
    /// Milliseconds from sending the request to the response's headers.
    pub latency: u128,
    pub target: Target,
}

pub struct EntryView {
    pub time: Timestamp,
    pub response_code: ResponseCode,
    pub latency: u128,
    pub target: TargetView,
}

impl View for Entry {
    type V = EntryView;

    open spec fn view(&self) -> EntryView {
        EntryView {
            time: self.time,
            response_code: self.response_code,
            latency: self.latency,
            target: self.target@,
        }
    }
}

/// An answered request as it travels to the consumers: the time in whole
/// seconds.
#[derive(Clone, Debug, PartialEq, Eq)]
pub struct EntryDTO {
    pub timestamp_seconds: i64,
    pub response_code: ResponseCode,
    pub latency: u128,
    pub target: Target,
}

pub struct EntryDTOView {
    pub timestamp_seconds: i64,
    pub response_code: ResponseCode,
    pub latency: u128,
    pub target: TargetView,
}

impl View for EntryDTO {
    type V = EntryDTOView;

    open spec fn view(&self) -> EntryDTOView {
        EntryDTOView {
            timestamp_seconds: self.timestamp_seconds,
            response_code: self.response_code,
            latency: self.latency,
            target: self.target@,
        }
    }
}

impl Entry {
    /// An answered request.
    pub fn new(time: Timestamp, latency: u128, response_code: ResponseCode, target: Target) -> (r:
        Entry)
        ensures
            r@ == (EntryView { time, response_code, latency, target: target@ }),
    {
        Entry { time, response_code, latency, target }
    }

    /// The entry at the start of the second that `dto` names.
    pub fn from_dto(dto: EntryDTO) -> (r: Entry)
        ensures
            r@ == (EntryView {
                time: Timestamp { seconds: dto.timestamp_seconds, nanos: 0 },
                response_code: dto.response_code,
                latency: dto.latency,
                target: dto.target@,
            }),
    {
        Entry {
            time: Timestamp::from_seconds(dto.timestamp_seconds),
            response_code: dto.response_code,
            latency: dto.latency,
            target: dto.target,
        }
    }

    /// This entry with its time cut to whole seconds.
    pub fn to_dto(&self) -> (r: EntryDTO)
        ensures
            r@ == (EntryDTOView {
                timestamp_seconds: self.time.seconds,
                response_code: self.response_code,
                latency: self.latency,
                target: self.target@,
            }),
    {
        EntryDTO {
            timestamp_seconds: self.time.timestamp(),
            response_code: self.response_code,
            latency: self.latency,
            target: self.target.duplicate(),
        }
    }
}

/// A request that got no answer.
#[derive(Clone, Debug, PartialEq, Eq)]
pub struct Failure {
    pub time: Timestamp,
    /// Milliseconds from sending the request to the error.
    pub latency: u128,
    pub reason: String,
    pub target: Target,
}

pub struct FailureView {
    pub time: Timestamp,
    pub latency: u128,
    pub reason: Seq<char>,
    pub target: TargetView,
}

impl View for Failure {
    type V = FailureView;

    open spec fn view(&self) -> FailureView {
        FailureView {
            time: self.time,
            latency: self.latency,
            reason: self.reason@,
            target: self.target@,
        }
    }
}

/// A failed request as it travels to the consumers.
#[derive(Clone, Debug, PartialEq, Eq)]
pub struct FailureDTO {
    pub timestamp_seconds: i64,
    pub latency: u128,
    pub reason: String,
    pub target: Target,
}

pub struct FailureDTOView {
    pub timestamp_seconds: i64,
    pub latency: u128,
    pub reason: Seq<char>,
    pub target: TargetView,
}

impl View for FailureDTO {
    type V = FailureDTOView;

    open spec fn view(&self) -> FailureDTOView {
        FailureDTOView {
            timestamp_seconds: self.timestamp_seconds,
            latency: self.latency,
            reason: self.reason@,
            target: self.target@,
        }
    }
}

impl Failure {
    /// A failed request.
    pub fn new(time: Timestamp, latency: u128, reason: String, target: Target) -> (r: Failure)
        ensures
            r@ == (FailureView { time, latency, reason: reason@, target: target@ }),
    {
        Failure { time, reason, latency, target }
    }

    /// The failure at the start of the second that `dto` names.
    pub fn from_dto(dto: FailureDTO) -> (r: Failure)
        ensures
            r@ == (FailureView {
                time: Timestamp { seconds: dto.timestamp_seconds, nanos: 0 },
                latency: dto.latency,
                reason: dto.reason@,
                target: dto.target@,
            }),
    {
        Failure {
            time: Timestamp::from_seconds(dto.timestamp_seconds),
            reason: dto.reason,
            latency: dto.latency,
            target: dto.target,
        }
    }

    /// This failure with its time cut to whole seconds.
    pub fn to_dto(&self) -> (r: FailureDTO)
        ensures
            r@ == (FailureDTOView {
                timestamp_seconds: self.time.seconds,
                latency: self.latency,
                reason: self.reason@,
                target: self.target@,
            }),
    {
        FailureDTO {
            timestamp_seconds: self.time.timestamp(),
            reason: self.reason.clone(),
            latency: self.latency,
            target: self.target.duplicate(),
        }
    }
}

/// What one request came to.
#[derive(Clone, Debug, PartialEq, Eq)]
pub enum Outcome {
    Success(EntryDTO),
    Failure(FailureDTO),
}

pub enum OutcomeView {
    Success(EntryDTOView),
    Failure(FailureDTOView),
}

impl View for Outcome {
    type V = OutcomeView;

    open spec fn view(&self) -> OutcomeView {
        match *self {
            Outcome::Success(e) => OutcomeView::Success(e@),
            Outcome::Failure(f) => OutcomeView::Failure(f@),
        }
    }
}

impl OutcomeView {
    /// The target that the request went to.
    pub open spec fn target(self) -> TargetView {
        match self {
            OutcomeView::Success(e) => e.target,
            OutcomeView::Failure(f) => f.target,
        }
    }

    /// How long the request took, in milliseconds.
    pub open spec fn latency(self) -> u128 {
        match self {
            OutcomeView::Success(e) => e.latency,
            OutcomeView::Failure(f) => f.latency,
        }
    }
}

impl Outcome {
    /// The outcome that a probe's message stands for.
    pub fn from_message(message: Result<EntryDTO, FailureDTO>) -> (r: Outcome)
        ensures
            r@ == match message {
                Ok(e) => OutcomeView::Success(e@),
                Err(f) => OutcomeView::Failure(f@),
            },
    {
        match message {
            Ok(e) => Outcome::Success(e),
            Err(f) => Outcome::Failure(f),
        }
    }

    /// The name of the target that the request went to.
    pub fn target_ref(&self) -> (r: String)
        requires
            self@.target().name is Some,
        ensures
            Some(r@) == self@.target().name,
    {
        match self {
            Outcome::Success(e) => e.target.clone_unwrap_name(),
            Outcome::Failure(f) => f.target.clone_unwrap_name(),
        }
    }

    /// How long the request took, in milliseconds.
    pub fn latency(&self) -> (r: u128)
        ensures
            r == self@.latency(),
    {
        match self {
            Outcome::Success(e) => e.latency,
            Outcome::Failure(f) => f.latency,
        }
    }
}

/// What a subscriber of a target's bus gets from one receive.
#[derive(Clone, Debug, PartialEq, Eq)]
pub enum BusEvent {
    /// The next outcome.
    Message(Outcome),
    /// The subscriber was too slow, and this many outcomes were
    /// overwritten before it could read them.
    Lagged(u64),
    /// The bus is closed and drained.
    Closed,
}

} // verus!
