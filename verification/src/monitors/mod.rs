//! Source adapters: each one turns what was fetched from its source into a
//! `Change`, or into nothing, by comparing it with what it saw before.

pub mod adapter;
pub mod api_monitor;
pub mod hyperliquid_monitor;
pub mod js_monitor;
pub mod positions;
pub mod static_monitor;

use crate::monitors::positions::{
    numbers_view, raw_view, NumbersView, PositionNumbers, RawPosition, RawPositionView,
};
use vstd::prelude::*;

verus! {

/// A detected difference: a short summary and a longer diagnostic text.
#[derive(Clone, Debug)]
pub struct Change {
    /// Change summary message
    pub message: String,
    /// Change detailed information
    pub details: String,
}

/// What a `Change` says.
pub struct ChangeView {
    pub message: Seq<char>,
    pub details: Seq<char>,
}

impl View for Change {
    type V = ChangeView;

    open spec fn view(&self) -> ChangeView {
        ChangeView { message: self.message@, details: self.details@ }
    }
}

impl Change {
    /// The summary, as the text shown for the change.
    pub fn to_text(&self) -> (r: String)
        ensures
            r@ == self@.message,
    {
        self.message.clone()
    }
}

/// Why a check produced no verdict. Every variant is recoverable: the caller
/// waits one interval and tries again.
#[derive(Debug)]
pub enum FetchError {
    /// The request did not complete: connection failure or timeout.
    Network(String),
    /// The source answered with a status outside the success range.
    Status(u16),
    /// The payload is not what the source is expected to send.
    Parse(String),
    /// A path expression or an identifier field is malformed.
    Extraction(String),
}

/// What a `FetchError` says.
pub enum FetchErrorView {
    Network(Seq<char>),
    Status(u16),
    Parse(Seq<char>),
    Extraction(Seq<char>),
}

impl View for FetchError {
    type V = FetchErrorView;

    open spec fn view(&self) -> FetchErrorView {
        match self {
            FetchError::Network(e) => FetchErrorView::Network(e@),
            FetchError::Status(code) => FetchErrorView::Status(*code),
            FetchError::Parse(e) => FetchErrorView::Parse(e@),
            FetchError::Extraction(e) => FetchErrorView::Extraction(e@),
        }
    }
}

/// The text of a `FetchError`.
pub open spec fn error_text(e: FetchErrorView) -> Seq<char> {
    match e {
        FetchErrorView::Network(reason) => "Request failed: "@ + reason,
        FetchErrorView::Status(code) => "Request failed, status code: "@ + crate::decimal::decimal(
            code as nat,
        ),
        FetchErrorView::Parse(reason) => "Failed to parse response: "@ + reason,
        FetchErrorView::Extraction(reason) => "Failed to extract data: "@ + reason,
    }
}

impl FetchError {
    /// The error as one line of text.
    pub fn to_text(&self) -> (r: String)
        ensures
            r@ == error_text(self@),
    {
        match self {
            FetchError::Network(reason) => {
                let mut s = String::from_str("Request failed: ");
                s.append(reason.as_str());
                s
            },
            FetchError::Status(code) => {
                let mut s = String::from_str("Request failed, status code: ");
                crate::decimal::push_decimal(&mut s, *code as u64);
                s
            },
            FetchError::Parse(reason) => {
                let mut s = String::from_str("Failed to parse response: ");
                s.append(reason.as_str());
                s
            },
            FetchError::Extraction(reason) => {
                let mut s = String::from_str("Failed to extract data: ");
                s.append(reason.as_str());
                s
            },
        }
    }
}

/// A request that an adapter asks its caller to perform.
#[derive(Debug)]
pub enum FetchRequest {
    /// Fetch `url`.
    Get { url: String },
    /// Send a JSON object with these string members to `url` and fetch the answer.
    PostJson { url: String, fields: Vec<(String, String)> },
}

/// What a `FetchRequest` asks for.
pub enum FetchRequestView {
    Get { url: Seq<char> },
    PostJson { url: Seq<char>, fields: Seq<(Seq<char>, Seq<char>)> },
}

/// What a list of pairs of strings holds.
pub open spec fn pairs_view(pairs: Seq<(String, String)>) -> Seq<(Seq<char>, Seq<char>)> {
    Seq::new(pairs.len(), |i: int| (pairs[i].0@, pairs[i].1@))
}

impl View for FetchRequest {
    type V = FetchRequestView;

    open spec fn view(&self) -> FetchRequestView {
        match self {
            FetchRequest::Get { url } => FetchRequestView::Get { url: url@ },
            FetchRequest::PostJson { url, fields } => FetchRequestView::PostJson {
                url: url@,
                fields: pairs_view(fields@),
            },
        }
    }
}

/// How a request ended.
#[derive(Debug)]
pub enum FetchReply {
    /// The request did not complete; the text says why.
    Failed(String),
    /// The source answered with this status, outside the success range.
    Status(u16),
    /// The source answered with this payload.
    Body(String),
}

/// What a `FetchReply` holds.
pub enum FetchReplyView {
    Failed(Seq<char>),
    Status(u16),
    Body(Seq<char>),
}

impl View for FetchReply {
    type V = FetchReplyView;

    open spec fn view(&self) -> FetchReplyView {
        match self {
            FetchReply::Failed(e) => FetchReplyView::Failed(e@),
            FetchReply::Status(code) => FetchReplyView::Status(*code),
            FetchReply::Body(text) => FetchReplyView::Body(text@),
        }
    }
}

/// What answers a step of a check.
#[derive(Debug)]
pub enum CheckEvent {
    /// How the request ended that the step asked for.
    Reply(FetchReply),
    /// The numbers that the step asked for, one entry per position that was
    /// handed out, in the same order.
    Numbers(Vec<PositionNumbers>),
}

/// What a `CheckEvent` holds.
pub enum CheckEventView {
    Reply(FetchReplyView),
    Numbers(Seq<NumbersView>),
}

impl View for CheckEvent {
    type V = CheckEventView;

    open spec fn view(&self) -> CheckEventView {
        match self {
            CheckEvent::Reply(r) => CheckEventView::Reply(r@),
            CheckEvent::Numbers(ns) => CheckEventView::Numbers(numbers_view(ns@)),
        }
    }
}

/// What a check needs done next, or how it ended.
#[derive(Debug)]
pub enum Step {
    /// Perform the request and come back with a `CheckEvent::Reply`.
    Fetch(FetchRequest),
    /// Turn the positions, read as text, into numbers and come back with a
    /// `CheckEvent::Numbers`.
    Quantize(Vec<RawPosition>),
    /// The check is over.
    Done(CheckResult),
}

/// What a `Step` holds.
pub enum StepView {
    Fetch(FetchRequestView),
    Quantize(Seq<RawPositionView>),
    Done(Result<Option<ChangeView>, FetchErrorView>),
}

impl View for Step {
    type V = StepView;

    open spec fn view(&self) -> StepView {
        match self {
            Step::Fetch(r) => StepView::Fetch(r@),
            Step::Quantize(raw) => StepView::Quantize(raw_view(raw@)),
            Step::Done(r) => StepView::Done(result_view(*r)),
        }
    }
}

/// Monitor trait, all types of monitors implement this trait. A check is made
/// in steps: the monitor says what it needs done, the caller does it and
/// comes back with the outcome, until the monitor says that the check is over.
/// Interval, name and notes of a monitor are fixed while it checks.
pub trait Monitor {
    /// The monitoring interval, in seconds.
    spec fn interval_secs(&self) -> u64;

    /// The name of the monitor.
    spec fn name(&self) -> Seq<char>;

    /// The notes that prefix the alerts of the monitor.
    spec fn notes(&self) -> Seq<char>;

    /// Begins a check and says what it needs first.
    fn start_check(&mut self) -> (r: Step)
        ensures
            final(self).interval_secs() == old(self).interval_secs(),
            final(self).name() == old(self).name(),
            final(self).notes() == old(self).notes(),
    ;

    /// Goes on with the check after the event that answers its last step.
    fn resume_check(&mut self, event: CheckEvent) -> (r: Step)
        ensures
            final(self).interval_secs() == old(self).interval_secs(),
            final(self).name() == old(self).name(),
            final(self).notes() == old(self).notes(),
    ;

    /// Get monitoring interval (seconds)
    fn interval(&self) -> (r: u64)
        ensures
            r == self.interval_secs(),
    ;

    /// Get monitor name or description for notifications
    fn get_name(&self) -> (r: String)
        ensures
            r@ == self.name(),
    ;

    /// Get the notes that prefix the alerts of the monitor
    fn get_notes(&self) -> (r: String)
        ensures
            r@ == self.notes(),
    ;
}

/// The result of one check.
pub type CheckResult = Result<Option<Change>, FetchError>;

/// What a check result says.
pub open spec fn result_view(r: CheckResult) -> Result<Option<ChangeView>, FetchErrorView> {
    match r {
        Ok(Some(c)) => Ok(Some(c@)),
        Ok(None) => Ok(None),
        Err(e) => Err(e@),
    }
}

} // verus!
