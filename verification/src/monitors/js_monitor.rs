//! Watches one member of the JSON that an API returns, found by a dotted path.

use crate::json::{json_error, json_member_text, member_text, parse_error};
use crate::monitors::{
    result_view, Change, ChangeView, CheckEvent, CheckEventView, CheckResult, FetchError,
    FetchErrorView, FetchReply, FetchReplyView, FetchRequest, FetchRequestView, Monitor, Step,
    StepView,
};
use crate::text::{opt_text, split, split_on, texts};
use vstd::prelude::*;
use vstd::string::*;

verus! {

/// Monitors one member of the JSON that an API endpoint returns. The first
/// value is recorded without a report; later values are reported where they
/// differ from the last.
pub struct JsMonitor {
    /// Target URL (API endpoint)
    url: String,
    /// JSON path or key to monitor (using dot notation, e.g., "data.price")
    selector: String,
    /// Last detected value
    last_value: Option<String>,
    /// Check interval (seconds)
    interval_secs: u64,
}

/// The state of a `JsMonitor`.
pub struct JsMonitorView {
    pub url: Seq<char>,
    pub selector: Seq<char>,
    pub last_value: Option<Seq<char>>,
    pub interval_secs: u64,
}

impl View for JsMonitor {
    type V = JsMonitorView;

    closed spec fn view(&self) -> JsMonitorView {
        JsMonitorView {
            url: self.url@,
            selector: self.selector@,
            last_value: opt_text(self.last_value),
            interval_secs: self.interval_secs,
        }
    }
}

/// The first of the first `n` parts of a path that leads to no member of the
/// document, as its position.
pub open spec fn first_missing(body: Seq<char>, parts: Seq<Seq<char>>, n: nat) -> Option<nat>
    decreases n,
{
    if n == 0 {
        None
    } else {
        match first_missing(body, parts, (n - 1) as nat) {
            Some(i) => Some(i),
            None => if json_member_text(body, parts.take(n as int)) is None {
                Some((n - 1) as nat)
            } else {
                None
            },
        }
    }
}

/// The value that a dotted path selects in a document, or the error that
/// names the first part that is missing. A path has at least one part, so
/// that a value is reached wherever no part is missing.
pub open spec fn selected(body: Seq<char>, selector: Seq<char>) -> Result<
    Seq<char>,
    FetchErrorView,
> {
    let parts = split(selector, '.');
    match first_missing(body, parts, parts.len()) {
        Some(i) => Err(
            FetchErrorView::Extraction(
                "Failed to find '"@ + parts[i as int] + "' in JSON response"@,
            ),
        ),
        None => Ok(
            match json_member_text(body, parts) {
                Some(v) => v,
                None => Seq::empty(),
            },
        ),
    }
}

/// The change reported for another value than the last one.
pub open spec fn value_change(pre: JsMonitorView, old_value: Seq<char>, value: Seq<char>) -> ChangeView {
    ChangeView {
        message: "API data changed: "@ + pre.url,
        details: "Selector: "@ + pre.selector + "\nOld value: "@ + old_value + "\nNew value: "@
            + value,
    }
}

/// What one look at a selected value reports: the first value is recorded in
/// silence, a later one is reported where it differs from the last.
pub open spec fn observed(pre: JsMonitorView, value: Seq<char>) -> Option<ChangeView> {
    match pre.last_value {
        None => None,
        Some(last) => if last == value {
            None
        } else {
            Some(value_change(pre, last, value))
        },
    }
}

/// What a reply yields: the selected value, or the error that ends the check.
pub open spec fn value_of(pre: JsMonitorView, reply: FetchReplyView) -> Result<
    Seq<char>,
    FetchErrorView,
> {
    match reply {
        FetchReplyView::Failed(reason) => Err(FetchErrorView::Network(reason)),
        FetchReplyView::Status(code) => Err(FetchErrorView::Status(code)),
        FetchReplyView::Body(body) => match json_error(body) {
            Some(e) => Err(FetchErrorView::Parse(e)),
            None => selected(body, pre.selector),
        },
    }
}

/// What one check reports, given how the fetch ended.
pub open spec fn checked(pre: JsMonitorView, reply: FetchReplyView) -> Result<
    Option<ChangeView>,
    FetchErrorView,
> {
    match value_of(pre, reply) {
        Err(e) => Err(e),
        Ok(value) => Ok(observed(pre, value)),
    }
}

/// The state after one check: a selected value becomes the baseline.
pub open spec fn after_check(pre: JsMonitorView, reply: FetchReplyView) -> JsMonitorView {
    match value_of(pre, reply) {
        Err(_) => pre,
        Ok(value) => JsMonitorView { last_value: Some(value), ..pre },
    }
}

/// How a check goes on after `event`: the state it leaves and the step that ends it.
pub open spec fn resumed(pre: JsMonitorView, event: CheckEventView) -> (JsMonitorView, StepView) {
    match event {
        CheckEventView::Reply(reply) => (
            after_check(pre, reply),
            StepView::Done(checked(pre, reply)),
        ),
        CheckEventView::Numbers(_) => (pre, StepView::Done(Ok(None))),
    }
}

impl JsMonitor {
    /// Create a new API monitor
    pub fn new(url: &str, selector: &str, interval_secs: u64) -> (r: Self)
        ensures
            r@ == (JsMonitorView {
                url: url@,
                selector: selector@,
                last_value: None,
                interval_secs,
            }),
    {
        JsMonitor {
            url: String::from_str(url),
            selector: String::from_str(selector),
            last_value: None,
            interval_secs,
        }
    }

    /// The request that a check needs answered.
    pub fn request(&self) -> (r: FetchRequest)
        ensures
            r@ == (FetchRequestView::Get { url: self@.url }),
    {
        FetchRequest::Get { url: self.url.clone() }
    }

    /// Extract value from JSON response using selector path
    pub fn extract_value(&self, json_data: &str, selector: &str) -> (r: Result<String, FetchError>)
        ensures
            match r {
                Ok(v) => selected(json_data@, selector@) == Ok::<Seq<char>, FetchErrorView>(v@),
                Err(e) => selected(json_data@, selector@) == Err::<Seq<char>, FetchErrorView>(e@),
            },
    {
        let parts = split_on(selector, '.');
        let n = parts.len();
        let mut prefix: Vec<String> = Vec::new();
        let mut value = String::new();
        let mut i: usize = 0;
        assert(texts(prefix@) =~= texts(parts@).take(0));
        while i < n
            invariant
                i <= n == parts@.len(),
                texts(parts@) == split(selector@, '.'),
                texts(prefix@) == texts(parts@).take(i as int),
                first_missing(json_data@, texts(parts@), i as nat) is None,
                i > 0 ==> json_member_text(json_data@, texts(prefix@)) == Some(value@),
            decreases n - i,
        {
            let ghost before = texts(prefix@);
            prefix.push(parts[i].clone());
            assert(texts(prefix@) =~= before.push(parts@[i as int]@));
            assert(texts(prefix@) =~= texts(parts@).take(i + 1));
            match member_text(json_data, &prefix) {
                Some(v) => {
                    value = v;
                },
                None => {
                    assert(first_missing(json_data@, texts(parts@), (i + 1) as nat) == Some(
                        i as nat,
                    ));
                    proof {
                        lemma_first_missing_stays(json_data@, texts(parts@), (i + 1) as nat, n as nat);
                    }
                    let mut message = String::from_str("Failed to find '");
                    message.append(parts[i].as_str());
                    message.append("' in JSON response");
                    assert(texts(parts@)[i as int] == parts@[i as int]@);
                    return Err(FetchError::Extraction(message));
                },
            }
            i += 1;
        }
        assert(texts(parts@).take(n as int) =~= texts(parts@));
        Ok(value)
    }

    /// One check, given how the fetch ended.
    pub fn check(&mut self, reply: FetchReply) -> (r: CheckResult)
        ensures
            final(self)@ == after_check(old(self)@, reply@),
            result_view(r) == checked(old(self)@, reply@),
    {
        let value = match reply {
            FetchReply::Failed(reason) => {
                return Err(FetchError::Network(reason));
            },
            FetchReply::Status(code) => {
                return Err(FetchError::Status(code));
            },
            FetchReply::Body(body) => {
                if let Some(e) = parse_error(body.as_str()) {
                    return Err(FetchError::Parse(e));
                }
                match self.extract_value(body.as_str(), self.selector.as_str()) {
                    Ok(v) => v,
                    Err(e) => {
                        return Err(e);
                    },
                }
            },
        };
        let change = match &self.last_value {
            Some(last_value) => {
                if *last_value != value {
                    let mut message = String::from_str("API data changed: ");
                    message.append(self.url.as_str());
                    let mut details = String::from_str("Selector: ");
                    details.append(self.selector.as_str());
                    details.append("\nOld value: ");
                    details.append(last_value.as_str());
                    details.append("\nNew value: ");
                    details.append(value.as_str());
                    Some(Change { message, details })
                } else {
                    None
                }
            },
            None => None,
        };
        self.last_value = Some(value);
        Ok(change)
    }
}

proof fn lemma_first_missing_stays(body: Seq<char>, parts: Seq<Seq<char>>, m: nat, n: nat)
    requires
        m <= n,
        first_missing(body, parts, m) is Some,
    ensures
        first_missing(body, parts, n) == first_missing(body, parts, m),
    decreases n,
{
    if m < n {
        lemma_first_missing_stays(body, parts, m, (n - 1) as nat);
    }
}

impl Monitor for JsMonitor {
    open spec fn interval_secs(&self) -> u64 {
        self@.interval_secs
    }

    open spec fn name(&self) -> Seq<char> {
        "JavaScript monitor for "@ + self@.url
    }

    open spec fn notes(&self) -> Seq<char> {
        self@.url
    }

    /// Begins a check: the API is to be fetched.
    fn start_check(&mut self) -> (r: Step)
        ensures
            final(self)@ == old(self)@,
            r@ == StepView::Fetch(FetchRequestView::Get { url: old(self)@.url }),
    {
        Step::Fetch(self.request())
    }

    /// Ends the check with what the fetched payload shows.
    fn resume_check(&mut self, event: CheckEvent) -> (r: Step)
        ensures
            (final(self)@, r@) == resumed(old(self)@, event@),
    {
        match event {
            CheckEvent::Reply(reply) => Step::Done(self.check(reply)),
            CheckEvent::Numbers(_) => Step::Done(Ok(None)),
        }
    }

    /// Check interval (seconds).
    fn interval(&self) -> (r: u64)
        ensures
            r == self@.interval_secs,
    {
        self.interval_secs
    }

    /// Name of the monitor, for notifications.
    fn get_name(&self) -> (r: String)
        ensures
            r@ == "JavaScript monitor for "@ + self@.url,
    {
        let mut s = String::from_str("JavaScript monitor for ");
        s.append(self.url.as_str());
        s
    }

    /// The notes that prefix the alerts of this monitor: its URL.
    fn get_notes(&self) -> (r: String)
        ensures
            r@ == self@.url,
    {
        self.url.clone()
    }
}

} // verus!
