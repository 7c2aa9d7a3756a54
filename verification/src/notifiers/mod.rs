//! Notification channels: what is sent where, and what the answers amount to.

pub mod server_chan;

use crate::decimal::decimal;
use crate::json::{json_error, json_i64_at, json_str_at};
use crate::text::join;
use vstd::prelude::*;

verus! {

/// One request of a delivery, ready to be sent.
#[derive(Debug)]
pub struct SendRequest {
    /// Where the request goes
    pub url: String,
    /// The content type of the body
    pub content_type: String,
    /// The length of the body in bytes
    pub content_length: u64,
    /// The body
    pub body: String,
}

/// What a `SendRequest` holds.
pub struct SendRequestView {
    pub url: Seq<char>,
    pub content_type: Seq<char>,
    pub content_length: u64,
    pub body: Seq<char>,
}

impl View for SendRequest {
    type V = SendRequestView;

    open spec fn view(&self) -> SendRequestView {
        SendRequestView {
            url: self.url@,
            content_type: self.content_type@,
            content_length: self.content_length,
            body: self.body@,
        }
    }
}

/// What is to be delivered to one key: the request, or why none could be made.
#[derive(Debug)]
pub struct Delivery {
    /// The key that the delivery is for
    pub key: String,
    /// The request to send
    pub request: Result<SendRequest, String>,
}

/// What a `Delivery` holds.
pub struct DeliveryView {
    pub key: Seq<char>,
    pub request: Result<SendRequestView, Seq<char>>,
}

impl View for Delivery {
    type V = DeliveryView;

    open spec fn view(&self) -> DeliveryView {
        DeliveryView {
            key: self.key@,
            request: match self.request {
                Ok(r) => Ok(r@),
                Err(e) => Err(e@),
            },
        }
    }
}

/// What a list of deliveries holds.
pub open spec fn deliveries_view(ds: Seq<Delivery>) -> Seq<DeliveryView> {
    Seq::new(ds.len(), |i: int| ds[i]@)
}

/// How the delivery to one key ended.
#[derive(Debug)]
pub enum DeliveryOutcome {
    /// No request could be made; the text says why.
    NotSent(String),
    /// The request did not complete; the text says why.
    Transport(String),
    /// The service answered with this status, outside the success range.
    Status(u16),
    /// The service answered with this text.
    Response(String),
}

/// What a `DeliveryOutcome` holds.
pub enum DeliveryOutcomeView {
    NotSent(Seq<char>),
    Transport(Seq<char>),
    Status(u16),
    Response(Seq<char>),
}

impl View for DeliveryOutcome {
    type V = DeliveryOutcomeView;

    open spec fn view(&self) -> DeliveryOutcomeView {
        match self {
            DeliveryOutcome::NotSent(e) => DeliveryOutcomeView::NotSent(e@),
            DeliveryOutcome::Transport(e) => DeliveryOutcomeView::Transport(e@),
            DeliveryOutcome::Status(code) => DeliveryOutcomeView::Status(*code),
            DeliveryOutcome::Response(text) => DeliveryOutcomeView::Response(text@),
        }
    }
}

/// A key and how the delivery to it ended.
#[derive(Debug)]
pub struct Attempt {
    /// The key that was contacted
    pub key: String,
    /// How it ended
    pub outcome: DeliveryOutcome,
}

/// What an `Attempt` holds.
pub struct AttemptView {
    pub key: Seq<char>,
    pub outcome: DeliveryOutcomeView,
}

impl View for Attempt {
    type V = AttemptView;

    open spec fn view(&self) -> AttemptView {
        AttemptView { key: self.key@, outcome: self.outcome@ }
    }
}

/// What a list of attempts holds.
pub open spec fn attempts_view(a: Seq<Attempt>) -> Seq<AttemptView> {
    Seq::new(a.len(), |i: int| a[i]@)
}

/// Why a notification was not delivered to every key.
#[derive(Debug)]
pub enum NotificationError {
    /// There is no key to deliver to.
    NoKeys,
    /// At least one delivery failed; the text lists every failure.
    Failed(String),
}

/// What a `NotificationError` holds.
pub enum NotificationErrorView {
    NoKeys,
    Failed(Seq<char>),
}

impl View for NotificationError {
    type V = NotificationErrorView;

    open spec fn view(&self) -> NotificationErrorView {
        match self {
            NotificationError::NoKeys => NotificationErrorView::NoKeys,
            NotificationError::Failed(m) => NotificationErrorView::Failed(m@),
        }
    }
}

/// The text of a `NotificationError`.
pub open spec fn error_text(e: NotificationErrorView) -> Seq<char> {
    match e {
        NotificationErrorView::NoKeys => "No ServerChan keys configured"@,
        NotificationErrorView::Failed(m) => m,
    }
}

impl NotificationError {
    /// The error as one line of text.
    pub fn to_text(&self) -> (r: String)
        ensures
            r@ == error_text(self@),
    {
        match self {
            NotificationError::NoKeys => String::from_str("No ServerChan keys configured"),
            NotificationError::Failed(m) => m.clone(),
        }
    }
}

/// Why the delivery behind an outcome failed; nothing where it succeeded. An
/// answer counts as success when it is JSON whose `code` is 0.
pub open spec fn failure_reason(outcome: DeliveryOutcomeView) -> Option<Seq<char>> {
    match outcome {
        DeliveryOutcomeView::NotSent(e) => Some(e),
        DeliveryOutcomeView::Transport(e) => Some("Failed to send notification request: "@ + e),
        DeliveryOutcomeView::Status(code) => Some(
            "Failed to send notification request, status code: "@ + decimal(code as nat),
        ),
        DeliveryOutcomeView::Response(text) => match json_error(text) {
            Some(e) => Some("Failed to parse response: "@ + e),
            None => if json_i64_at(text, "/code"@) == Some(0i64) {
                None
            } else {
                Some(
                    match json_str_at(text, "/message"@) {
                        Some(m) => m,
                        None => "Unknown error"@,
                    },
                )
            },
        },
    }
}

/// The line that reports one failed delivery.
pub open spec fn failure_line(key: Seq<char>, reason: Seq<char>) -> Seq<char> {
    "Failed to send notification to key "@ + key + ": "@ + reason
}

/// The lines of all failed deliveries among `attempts`, in their order.
pub open spec fn failures(attempts: Seq<AttemptView>) -> Seq<Seq<char>>
    decreases attempts.len(),
{
    if attempts.len() == 0 {
        Seq::empty()
    } else {
        let rest = failures(attempts.drop_last());
        match failure_reason(attempts.last().outcome) {
            Some(reason) => rest.push(failure_line(attempts.last().key, reason)),
            None => rest,
        }
    }
}

/// What a round of deliveries amounts to: success when every one succeeded,
/// else one error that lists every failure.
pub open spec fn settled(attempts: Seq<AttemptView>) -> Result<(), NotificationErrorView> {
    if failures(attempts).len() == 0 {
        Ok(())
    } else {
        Err(
            NotificationErrorView::Failed(
                "Some notifications failed: "@ + join(failures(attempts), "; "@),
            ),
        )
    }
}

/// Notifier trait, all types of notification services implement this trait.
/// A notification is sent in two halves: `send` says what is to be delivered
/// to whom, and `settle` says what the outcomes of those deliveries amount to.
pub trait Notifier {
    /// The targets that the notifier delivers to.
    spec fn targets(&self) -> Seq<Seq<char>>;

    /// The deliveries that a notification takes: one per target, in the order
    /// of the targets. Without a target there is nothing to deliver, which is
    /// an error.
    fn send(&self, title: &str, content: &str) -> (r: Result<Vec<Delivery>, NotificationError>)
        ensures
            match r {
                Ok(ds) => {
                    &&& self.targets().len() > 0
                    &&& ds@.len() == self.targets().len()
                    &&& forall|i: int|
                        0 <= i < ds@.len() ==> (#[trigger] ds@[i])@.key == self.targets()[i]
                },
                Err(e) => self.targets().len() == 0 && e@ == NotificationErrorView::NoKeys,
            },
    ;

    /// What the deliveries amount to, once every one was attempted: success
    /// where every one succeeded, else one error that lists every failure.
    fn settle(&self, attempts: &Vec<Attempt>) -> (r: Result<(), NotificationError>)
        ensures
            match r {
                Ok(()) => settled(attempts_view(attempts@)) is Ok,
                Err(e) => settled(attempts_view(attempts@)) == Err::<(), NotificationErrorView>(
                    e@,
                ),
            },
    ;
}

} // verus!
