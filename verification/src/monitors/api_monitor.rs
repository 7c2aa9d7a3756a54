//! Watches one value, or one list of values, inside the JSON that an API returns.

use crate::json::{
    json_error, json_path_select, path_is_supported, path_supported, select_json, SelectFailure,
};
use crate::monitors::{
    result_view, Change, ChangeView, CheckEvent, CheckEventView, CheckResult, FetchError,
    FetchErrorView, FetchReply, FetchReplyView, FetchRequest, FetchRequestView, Monitor, Step,
    StepView,
};
use crate::text::{
    blank, byte_len, byte_length, contains_char, has_char, has_item, is_blank, join, join_with,
    split, split_on, strip, stripped, texts, trim, trimmed,
};
use vstd::prelude::*;
use vstd::string::*;

verus! {

/// Monitor JSON data returned from API
pub struct ApiMonitor {
    /// API URL
    url: String,
    /// JSONPath selector
    selector: String,
    /// Last detected value
    last_value: Option<String>,
    /// Check interval (seconds)
    interval_secs: u64,
    /// User-provided notes/remarks
    notes: String,
}

/// The state of an `ApiMonitor`.
pub struct ApiMonitorView {
    pub url: Seq<char>,
    pub selector: Seq<char>,
    pub last_value: Option<Seq<char>>,
    pub interval_secs: u64,
    pub notes: Seq<char>,
}

impl View for ApiMonitor {
    type V = ApiMonitorView;

    closed spec fn view(&self) -> ApiMonitorView {
        ApiMonitorView {
            url: self.url@,
            selector: self.selector@,
            last_value: match self.last_value {
                Some(v) => Some(v@),
                None => None,
            },
            interval_secs: self.interval_secs,
            notes: self.notes@,
        }
    }
}

/// The path expression that a selector stands for: a blank selector selects
/// the whole payload.
pub open spec fn effective_path(selector: Seq<char>) -> Seq<char> {
    if blank(selector) {
        "$"@
    } else {
        trimmed(selector)
    }
}

/// A match without the double quotes around it.
pub open spec fn unquoted(m: Seq<char>) -> Seq<char> {
    stripped(m, Some('"'))
}

/// Every match without the double quotes around it.
pub open spec fn unquoted_all(matches: Seq<Seq<char>>) -> Seq<Seq<char>> {
    Seq::new(matches.len(), |i: int| unquoted(matches[i]))
}

/// The one value that a list of matches is compared as: nothing for no match,
/// the match itself for one, a bracketed list for several.
pub open spec fn rendered(matches: Seq<Seq<char>>) -> Option<Seq<char>> {
    if matches.len() == 0 {
        None
    } else if matches.len() == 1 {
        Some(unquoted(matches[0]))
    } else {
        Some("["@ + join(unquoted_all(matches), ", "@) + "]"@)
    }
}

/// The items of a comma-separated value, each trimmed.
pub open spec fn list_items(value: Seq<char>) -> Seq<Seq<char>> {
    let pieces = split(value, ',');
    Seq::new(pieces.len(), |i: int| trimmed(pieces[i]))
}

/// The items of `items`, in order, that are not among `others`.
pub open spec fn missing_from(items: Seq<Seq<char>>, others: Seq<Seq<char>>) -> Seq<Seq<char>>
    decreases items.len(),
{
    if items.len() == 0 {
        Seq::empty()
    } else {
        let rest = missing_from(items.drop_last(), others);
        if others.contains(items.last()) {
            rest
        } else {
            rest.push(items.last())
        }
    }
}

/// One line of a list comparison; empty where there is nothing to list.
pub open spec fn items_line(label: Seq<char>, items: Seq<Seq<char>>) -> Seq<char> {
    if items.len() > 0 {
        label + join(items, ", "@) + "\n"@
    } else {
        Seq::empty()
    }
}

/// Which items a comma-separated value gained and lost.
pub open spec fn list_changes(old_value: Seq<char>, new_value: Seq<char>) -> Seq<char> {
    let old_items = list_items(old_value);
    let new_items = list_items(new_value);
    items_line("新增: "@, missing_from(new_items, old_items)) + items_line(
        "移除: "@,
        missing_from(old_items, new_items),
    )
}

/// Whether two values are compared item by item: one of them is long and
/// both hold a comma.
pub open spec fn compared_as_lists(old_value: Seq<char>, new_value: Seq<char>) -> bool {
    (byte_len(old_value) > 100 || byte_len(new_value) > 100) && has_char(old_value, ',')
        && has_char(new_value, ',')
}

/// How the new value differs from the old one, in words.
pub open spec fn change_description(old_value: Seq<char>, new_value: Seq<char>) -> Seq<char> {
    if compared_as_lists(old_value, new_value) && list_changes(old_value, new_value).len() > 0 {
        list_changes(old_value, new_value)
    } else {
        "数据已更新"@
    }
}

/// The change of a first look that found a value.
pub open spec fn start_change(pre: ApiMonitorView, value: Seq<char>) -> ChangeView {
    ChangeView {
        message: "start: "@ + pre.notes,
        details: "JSONPath: "@ + effective_path(pre.selector) + "\nInitial value: "@ + value
            + "\n\nNote: This may represent multiple values if your JSONPath selector matches multiple elements."@,
    }
}

/// The change of a look that found nothing before any value was seen.
pub open spec fn start_without_match(pre: ApiMonitorView) -> ChangeView {
    ChangeView {
        message: "start: "@ + pre.notes,
        details: "URL: "@ + pre.url + "\nSelector: "@ + pre.selector
            + "\n\nThe JSONPath selector did not match any data. Please check if your selector is correct."@,
    }
}

/// The change of a look that found another value than the last one.
pub open spec fn update_change(
    pre: ApiMonitorView,
    old_value: Seq<char>,
    new_value: Seq<char>,
) -> ChangeView {
    let description = change_description(old_value, new_value);
    ChangeView {
        message: pre.notes + " "@ + description,
        details: "JSONPath: "@ + effective_path(pre.selector) + "\n\nChanges:\n"@ + description
            + "\n\nCurrent value:\n"@ + new_value + "\n\nPrevious value:\n"@ + old_value
            + "\n\nNote: If your JSONPath selector matches multiple elements, this represents the combined changes."@,
    }
}

/// The change of a look that found nothing where a value was seen before.
pub open spec fn extraction_failed(pre: ApiMonitorView) -> ChangeView {
    ChangeView {
        message: pre.notes + " - Data extraction failed"@,
        details: "URL: "@ + pre.url + "\nSelector: "@ + pre.selector
            + "\n\nThe JSONPath selector did not match any data after a previous successful match. The data structure may have changed."@,
    }
}

/// What one look at an extracted value, or at the lack of one, reports.
pub open spec fn observed(pre: ApiMonitorView, extracted: Option<Seq<char>>) -> Option<
    ChangeView,
> {
    match (pre.last_value, extracted) {
        (None, Some(value)) => Some(start_change(pre, value)),
        (None, None) => Some(start_without_match(pre)),
        (Some(old_value), Some(value)) => if old_value == value {
            None
        } else {
            Some(update_change(pre, old_value, value))
        },
        (Some(_), None) => Some(extraction_failed(pre)),
    }
}

/// The state after one look: an extracted value becomes the baseline, and a
/// look that found nothing leaves the baseline as it was.
pub open spec fn after_observing(pre: ApiMonitorView, extracted: Option<Seq<char>>) -> ApiMonitorView {
    match extracted {
        Some(value) => ApiMonitorView { last_value: Some(value), ..pre },
        None => pre,
    }
}

/// The error of a selector that is not handed to the evaluator.
pub open spec fn path_refused() -> FetchErrorView {
    FetchErrorView::Extraction("This JSONPath cannot be evaluated"@)
}

/// What a payload yields under the selector of the monitor: the value that is
/// extracted from it, if any, or the error that ends the check.
pub open spec fn extracted(pre: ApiMonitorView, body: Seq<char>) -> Result<
    Option<Seq<char>>,
    FetchErrorView,
> {
    let path = effective_path(pre.selector);
    if !path_supported(path) {
        Err(path_refused())
    } else {
        match json_error(body) {
            Some(e) => Err(FetchErrorView::Parse(e)),
            None => match json_path_select(body, path) {
                Err(e) => Err(FetchErrorView::Extraction(e)),
                Ok(matches) => Ok(rendered(matches)),
            },
        }
    }
}

/// What one check reports, given how the fetch ended.
pub open spec fn checked(pre: ApiMonitorView, reply: FetchReplyView) -> Result<
    Option<ChangeView>,
    FetchErrorView,
> {
    match reply {
        FetchReplyView::Failed(reason) => Err(FetchErrorView::Network(reason)),
        FetchReplyView::Status(code) => Err(FetchErrorView::Status(code)),
        FetchReplyView::Body(body) => match extracted(pre, body) {
            Err(e) => Err(e),
            Ok(value) => Ok(observed(pre, value)),
        },
    }
}

/// The state after one check: only a payload that was searched moves the baseline.
pub open spec fn after_check(pre: ApiMonitorView, reply: FetchReplyView) -> ApiMonitorView {
    match reply {
        FetchReplyView::Body(body) => match extracted(pre, body) {
            Ok(value) => after_observing(pre, value),
            Err(_) => pre,
        },
        _ => pre,
    }
}

/// The one value that a list of matches is compared as.
pub fn render_matches(matches: &Vec<String>) -> (r: Option<String>)
    ensures
        crate::text::opt_text(r) == rendered(texts(matches@)),
{
    let n = matches.len();
    if n == 0 {
        return None;
    }
    if n == 1 {
        return Some(String::from_str(strip(matches[0].as_str(), Some('"'))));
    }
    let mut values: Vec<String> = Vec::new();
    let mut i: usize = 0;
    while i < n
        invariant
            i <= n == matches@.len(),
            texts(values@) == unquoted_all(texts(matches@)).take(i as int),
        decreases n - i,
    {
        let ghost before = values@;
        values.push(String::from_str(strip(matches[i].as_str(), Some('"'))));
        assert(texts(values@) =~= texts(before).push(unquoted(matches@[i as int]@)));
        assert(texts(values@) =~= unquoted_all(texts(matches@)).take(i + 1));
        i += 1;
    }
    assert(unquoted_all(texts(matches@)).take(n as int) =~= unquoted_all(texts(matches@)));
    let mut out = String::from_str("[");
    out.append(join_with(&values, ", ").as_str());
    out.append("]");
    Some(out)
}

fn trimmed_items(value: &str) -> (r: Vec<String>)
    ensures
        texts(r@) == list_items(value@),
{
    let pieces = split_on(value, ',');
    let n = pieces.len();
    let mut out: Vec<String> = Vec::new();
    let mut i: usize = 0;
    while i < n
        invariant
            i <= n == pieces@.len(),
            texts(pieces@) == split(value@, ','),
            texts(out@) == list_items(value@).take(i as int),
        decreases n - i,
    {
        let ghost before = out@;
        out.push(String::from_str(trim(pieces[i].as_str())));
        assert(texts(pieces@)[i as int] == pieces@[i as int]@);
        assert(texts(out@) =~= texts(before).push(trimmed(pieces@[i as int]@)));
        assert(texts(out@) =~= list_items(value@).take(i + 1));
        i += 1;
    }
    assert(list_items(value@).take(n as int) =~= list_items(value@));
    out
}

fn items_missing(items: &Vec<String>, others: &Vec<String>) -> (r: Vec<String>)
    ensures
        texts(r@) == missing_from(texts(items@), texts(others@)),
{
    let n = items.len();
    let mut out: Vec<String> = Vec::new();
    let mut i: usize = 0;
    assert(texts(out@) =~= Seq::<Seq<char>>::empty());
    while i < n
        invariant
            i <= n == items@.len(),
            texts(out@) == missing_from(texts(items@).take(i as int), texts(others@)),
        decreases n - i,
    {
        let ghost next = texts(items@).take(i + 1);
        assert(next.drop_last() =~= texts(items@).take(i as int));
        assert(next.last() == items@[i as int]@);
        if !has_item(others, &items[i]) {
            let ghost before = out@;
            out.push(items[i].clone());
            assert(texts(out@) =~= texts(before).push(items@[i as int]@));
        }
        i += 1;
    }
    assert(texts(items@).take(n as int) =~= texts(items@));
    out
}

fn push_items_line(out: &mut String, label: &str, items: &Vec<String>)
    ensures
        final(out)@ == old(out)@ + items_line(label@, texts(items@)),
{
    if items.len() > 0 {
        out.append(label);
        out.append(join_with(items, ", ").as_str());
        out.append("\n");
        assert(final(out)@ =~= old(out)@ + items_line(label@, texts(items@)));
    } else {
        assert(final(out)@ =~= old(out)@ + items_line(label@, texts(items@)));
    }
}

impl ApiMonitor {
    /// Create a new API monitor. The URL serves as the note.
    pub fn new(url: String, selector: String, interval_secs: u64) -> (r: Self)
        ensures
            r@ == (ApiMonitorView {
                url: url@,
                selector: selector@,
                last_value: None,
                interval_secs,
                notes: url@,
            }),
    {
        let url_clone = url.clone();
        ApiMonitor { url, selector, last_value: None, interval_secs, notes: url_clone }
    }

    /// Create a new API monitor with notes. Blank notes leave the URL as the note.
    pub fn new_with_notes(url: String, selector: String, interval_secs: u64, notes: &str) -> (r:
        Self)
        ensures
            r@ == (ApiMonitorView {
                url: url@,
                selector: selector@,
                last_value: None,
                interval_secs,
                notes: if blank(notes@) {
                    url@
                } else {
                    notes@
                },
            }),
    {
        let mut monitor = Self::new(url, selector, interval_secs);
        if !is_blank(notes) {
            monitor.notes = String::from_str(notes);
        }
        monitor
    }

    /// Set notes/remarks. Blank notes change nothing.
    pub fn set_notes(&mut self, notes: &str)
        ensures
            final(self)@ == (ApiMonitorView {
                notes: if blank(notes@) {
                    old(self)@.notes
                } else {
                    notes@
                },
                ..old(self)@
            }),
    {
        if !is_blank(notes) {
            self.notes = String::from_str(notes);
        }
    }

    /// The request that a check needs answered.
    pub fn request(&self) -> (r: FetchRequest)
        ensures
            r@ == (FetchRequestView::Get { url: self@.url }),
    {
        FetchRequest::Get { url: self.url.clone() }
    }

    /// The path expression that the selector stands for.
    pub fn path(&self) -> (r: String)
        ensures
            r@ == effective_path(self@.selector),
    {
        if is_blank(self.selector.as_str()) {
            String::from_str("$")
        } else {
            String::from_str(trim(self.selector.as_str()))
        }
    }

    /// How the new value differs from the old one, in words.
    pub fn generate_change_description(&self, old_value: &str, new_value: &str) -> (r: String)
        ensures
            r@ == change_description(old_value@, new_value@),
    {
        if byte_length(old_value) > 100 || byte_length(new_value) > 100 {
            if contains_char(old_value, ',') && contains_char(new_value, ',') {
                let old_items = trimmed_items(old_value);
                let new_items = trimmed_items(new_value);
                let added = items_missing(&new_items, &old_items);
                let removed = items_missing(&old_items, &new_items);
                let mut changes = String::new();
                push_items_line(&mut changes, "新增: ", &added);
                push_items_line(&mut changes, "移除: ", &removed);
                assert(changes@ =~= list_changes(old_value@, new_value@));
                if !changes.as_str().is_empty() {
                    return changes;
                }
            }
        }
        String::from_str("数据已更新")
    }

    /// One look at an extracted value, or at the lack of one.
    pub fn observe(&mut self, extracted: Option<String>) -> (r: Option<Change>)
        ensures
            final(self)@ == after_observing(old(self)@, crate::text::opt_text(extracted)),
            match r {
                Some(c) => observed(old(self)@, crate::text::opt_text(extracted)) == Some(c@),
                None => observed(old(self)@, crate::text::opt_text(extracted)) is None,
            },
    {
        let path = self.path();
        match extracted {
            Some(new_value) => {
                let change = match &self.last_value {
                    None => {
                        let mut message = String::from_str("start: ");
                        message.append(self.notes.as_str());
                        let mut details = String::from_str("JSONPath: ");
                        details.append(path.as_str());
                        details.append("\nInitial value: ");
                        details.append(new_value.as_str());
                        details.append(
                            "\n\nNote: This may represent multiple values if your JSONPath selector matches multiple elements.",
                        );
                        Some(Change { message, details })
                    },
                    Some(old_value) => {
                        if *old_value != new_value {
                            let description = self.generate_change_description(
                                old_value.as_str(),
                                new_value.as_str(),
                            );
                            let mut message = self.notes.clone();
                            message.append(" ");
                            message.append(description.as_str());
                            let mut details = String::from_str("JSONPath: ");
                            details.append(path.as_str());
                            details.append("\n\nChanges:\n");
                            details.append(description.as_str());
                            details.append("\n\nCurrent value:\n");
                            details.append(new_value.as_str());
                            details.append("\n\nPrevious value:\n");
                            details.append(old_value.as_str());
                            details.append(
                                "\n\nNote: If your JSONPath selector matches multiple elements, this represents the combined changes.",
                            );
                            Some(Change { message, details })
                        } else {
                            None
                        }
                    },
                };
                self.last_value = Some(new_value);
                change
            },
            None => {
                let mut details = String::from_str("URL: ");
                details.append(self.url.as_str());
                details.append("\nSelector: ");
                details.append(self.selector.as_str());
                match &self.last_value {
                    None => {
                        let mut message = String::from_str("start: ");
                        message.append(self.notes.as_str());
                        details.append(
                            "\n\nThe JSONPath selector did not match any data. Please check if your selector is correct.",
                        );
                        Some(Change { message, details })
                    },
                    Some(_) => {
                        let mut message = self.notes.clone();
                        message.append(" - Data extraction failed");
                        details.append(
                            "\n\nThe JSONPath selector did not match any data after a previous successful match. The data structure may have changed.",
                        );
                        Some(Change { message, details })
                    },
                }
            },
        }
    }

    /// What a payload yields under the selector of the monitor. A payload that
    /// is no JSON and a selector that cannot be evaluated are errors; a
    /// selector that matches nothing yields no value.
    pub fn extract(&self, body: &str) -> (r: Result<Option<String>, FetchError>)
        ensures
            match r {
                Ok(value) => extracted(self@, body@) == Ok::<Option<Seq<char>>, FetchErrorView>(
                    crate::text::opt_text(value),
                ),
                Err(e) => extracted(self@, body@) == Err::<Option<Seq<char>>, FetchErrorView>(e@),
            },
    {
        let path = self.path();
        if !path_is_supported(path.as_str()) {
            return Err(FetchError::Extraction(String::from_str("This JSONPath cannot be evaluated")));
        }
        match select_json(body, path.as_str()) {
            Err(SelectFailure::Malformed(e)) => Err(FetchError::Parse(e)),
            Err(SelectFailure::BadPath(e)) => Err(FetchError::Extraction(e)),
            Ok(matches) => Ok(render_matches(&matches)),
        }
    }

    /// One check, given how the fetch ended. A failed fetch and whatever
    /// keeps a value from being looked for are errors; a selector that matches
    /// nothing is reported as a change.
    pub fn check(&mut self, reply: FetchReply) -> (r: CheckResult)
        ensures
            final(self)@ == after_check(old(self)@, reply@),
            result_view(r) == checked(old(self)@, reply@),
    {
        match reply {
            FetchReply::Failed(reason) => Err(FetchError::Network(reason)),
            FetchReply::Status(code) => Err(FetchError::Status(code)),
            FetchReply::Body(body) => match self.extract(body.as_str()) {
                Err(e) => Err(e),
                Ok(value) => Ok(self.observe(value)),
            },
        }
    }
}

/// How a check goes on after `event`: the state it leaves and the step that ends it.
pub open spec fn resumed(pre: ApiMonitorView, event: CheckEventView) -> (ApiMonitorView, StepView) {
    match event {
        CheckEventView::Reply(reply) => (
            after_check(pre, reply),
            StepView::Done(checked(pre, reply)),
        ),
        CheckEventView::Numbers(_) => (pre, StepView::Done(Ok(None))),
    }
}

impl Monitor for ApiMonitor {
    open spec fn interval_secs(&self) -> u64 {
        self@.interval_secs
    }

    open spec fn name(&self) -> Seq<char> {
        "API monitor for "@ + self@.url
    }

    open spec fn notes(&self) -> Seq<char> {
        self@.notes
    }

    /// Begins a check: the API is to be fetched.
    fn start_check(&mut self) -> (r: Step)
        ensures
            final(self)@ == old(self)@,
            r@ == StepView::Fetch(FetchRequestView::Get { url: old(self)@.url }),
    {
        Step::Fetch(self.request())
    }

    /// Ends the check with what the fetched payload shows.
    fn resume_check(&mut self, event: CheckEvent) -> (r: Step)
        ensures
            (final(self)@, r@) == resumed(old(self)@, event@),
    {
        match event {
            CheckEvent::Reply(reply) => Step::Done(self.check(reply)),
            CheckEvent::Numbers(_) => Step::Done(Ok(None)),
        }
    }

    /// Check interval (seconds).
    fn interval(&self) -> (r: u64)
        ensures
            r == self@.interval_secs,
    {
        self.interval_secs
    }

    /// Name of the monitor, for notifications.
    fn get_name(&self) -> (r: String)
        ensures
            r@ == "API monitor for "@ + self@.url,
    {
        let mut s = String::from_str("API monitor for ");
        s.append(self.url.as_str());
        s
    }

    /// The notes that prefix every alert of this monitor.
    fn get_notes(&self) -> (r: String)
        ensures
            r@ == self@.notes,
    {
        self.notes.clone()
    }
}

/// A selector that matched once and then matches nothing is reported as a
/// change that describes the failed extraction, never as an error.
pub proof fn law_lost_match_is_a_change(pre: ApiMonitorView, body: Seq<char>)
    requires
        pre.last_value is Some,
        path_supported(effective_path(pre.selector)),
        json_error(body) is None,
        json_path_select(body, effective_path(pre.selector)) == Ok::<Seq<Seq<char>>, Seq<char>>(
            Seq::empty(),
        ),
    ensures
        checked(pre, FetchReplyView::Body(body)) == Ok::<Option<ChangeView>, FetchErrorView>(
            Some(extraction_failed(pre)),
        ),
        after_check(pre, FetchReplyView::Body(body)) == pre,
{
}

/// Whatever was seen before, a look that extracts nothing reports a change.
pub proof fn law_no_match_is_never_silent(pre: ApiMonitorView)
    ensures
        observed(pre, None) is Some,
        after_observing(pre, None) == pre,
{
}

/// Once a value was extracted, the baseline is never missing again, whatever
/// the later fetches bring.
pub proof fn law_baseline_stays(pre: ApiMonitorView, reply: FetchReplyView)
    requires
        pre.last_value is Some,
    ensures
        after_check(pre, reply).last_value is Some,
{
}

} // verus!
