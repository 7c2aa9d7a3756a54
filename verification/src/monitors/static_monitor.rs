//! Watches the markup of a web page.

use crate::decimal::{decimal, push_decimal};
use crate::monitors::{
    result_view, Change, ChangeView, CheckEvent, CheckEventView, CheckResult, FetchError,
    FetchErrorView, FetchReply, FetchReplyView, FetchRequest, FetchRequestView, Monitor, Step,
    StepView,
};
use crate::text::{
    blank, byte_len, byte_length, chars_of, contains, find, find_chars, find_from, is_blank,
};
use vstd::prelude::*;
use vstd::string::*;

verus! {

/// Static webpage monitor, used to monitor webpage content changes
pub struct StaticMonitor {
    /// Webpage URL to monitor
    url: String,
    /// Monitoring interval (seconds)
    interval_secs: u64,
    /// Last detected content
    last_content: Option<String>,
    /// User-provided notes/remarks
    notes: String,
}

/// The state of a `StaticMonitor`.
pub struct StaticMonitorView {
    pub url: Seq<char>,
    pub interval_secs: u64,
    pub last_content: Option<Seq<char>>,
    pub notes: Seq<char>,
}

impl View for StaticMonitor {
    type V = StaticMonitorView;

    closed spec fn view(&self) -> StaticMonitorView {
        StaticMonitorView {
            url: self.url@,
            interval_secs: self.interval_secs,
            last_content: match self.last_content {
                Some(c) => Some(c@),
                None => None,
            },
            notes: self.notes@,
        }
    }
}

/// The text between the first `start_marker` and the first `end_marker` after it.
pub open spec fn between(content: Seq<char>, start_marker: Seq<char>, end_marker: Seq<char>) -> Option<
    Seq<char>,
> {
    match find(content, start_marker) {
        Some(start) => {
            let from = start + start_marker.len();
            match find_from(content, end_marker, from) {
                Some(end) => Some(content.subrange(from, end)),
                None => None,
            }
        },
        None => None,
    }
}

/// The title of a page, or a stand-in where it has none.
pub open spec fn title_of(content: Seq<char>) -> Seq<char> {
    match between(content, "<title>"@, "</title>"@) {
        Some(t) => t,
        None => "未找到"@,
    }
}

/// The line that compares the two lengths.
pub open spec fn length_line(old_len: nat, new_len: nat) -> Seq<char> {
    if new_len > old_len {
        "内容增加: "@ + decimal(old_len) + " -> "@ + decimal(new_len) + " 字节 (增加 "@ + decimal(
            (new_len - old_len) as nat,
        ) + " 字节)\n"@
    } else if new_len < old_len {
        "内容减少: "@ + decimal(old_len) + " -> "@ + decimal(new_len) + " 字节 (减少 "@ + decimal(
            (old_len - new_len) as nat,
        ) + " 字节)\n"@
    } else {
        "内容长度相同，但内容已变化\n"@
    }
}

/// The line that compares the two titles; empty where either page has no
/// title tag or the titles agree.
pub open spec fn title_line(old_content: Seq<char>, new_content: Seq<char>) -> Seq<char> {
    if contains(old_content, "<title>"@) && contains(new_content, "<title>"@) && title_of(
        old_content,
    ) != title_of(new_content) {
        "Title changed: '"@ + title_of(old_content) + "' -> '"@ + title_of(new_content) + "'\n"@
    } else {
        Seq::empty()
    }
}

/// How the new content of a page differs from the old one, in words.
pub open spec fn change_description(old_content: Seq<char>, new_content: Seq<char>) -> Seq<char> {
    length_line(byte_len(old_content), byte_len(new_content)) + title_line(
        old_content,
        new_content,
    )
}

/// The change reported when a page is seen for the first time.
pub open spec fn start_change(notes: Seq<char>, content: Seq<char>) -> ChangeView {
    ChangeView {
        message: "start: "@ + notes,
        details: "Initial content length: "@ + decimal(byte_len(content)) + " bytes"@,
    }
}

/// The change reported when a page differs from what was seen before.
pub open spec fn update_change(
    notes: Seq<char>,
    old_content: Seq<char>,
    new_content: Seq<char>,
) -> ChangeView {
    let description = change_description(old_content, new_content);
    ChangeView {
        message: notes + " "@ + description,
        details: "Changes:\n"@ + description + "\n\nCurrent content length: "@ + decimal(
            byte_len(new_content),
        ) + " bytes\n\nPrevious content length: "@ + decimal(byte_len(old_content)) + " bytes"@,
    }
}

/// What one look at freshly fetched `content` reports.
pub open spec fn observed(pre: StaticMonitorView, content: Seq<char>) -> Option<ChangeView> {
    match pre.last_content {
        None => Some(start_change(pre.notes, content)),
        Some(last) => if last == content {
            None
        } else {
            Some(update_change(pre.notes, last, content))
        },
    }
}

/// The state after one look at freshly fetched `content`.
pub open spec fn after_observing(pre: StaticMonitorView, content: Seq<char>) -> StaticMonitorView {
    StaticMonitorView { last_content: Some(content), ..pre }
}

/// What one check reports, given how the fetch ended.
pub open spec fn checked(pre: StaticMonitorView, reply: FetchReplyView) -> Result<
    Option<ChangeView>,
    FetchErrorView,
> {
    match reply {
        FetchReplyView::Failed(reason) => Err(FetchErrorView::Network(reason)),
        FetchReplyView::Status(code) => Err(FetchErrorView::Status(code)),
        FetchReplyView::Body(content) => Ok(observed(pre, content)),
    }
}

/// The state after one check, given how the fetch ended: a failed fetch
/// leaves the baseline as it was.
pub open spec fn after_check(pre: StaticMonitorView, reply: FetchReplyView) -> StaticMonitorView {
    match reply {
        FetchReplyView::Body(content) => after_observing(pre, content),
        _ => pre,
    }
}

/// Helper: the text between two markers.
pub fn extract_between<'a>(content: &'a str, start_marker: &str, end_marker: &str) -> (r: Option<
    &'a str,
>)
    ensures
        match r {
            Some(t) => between(content@, start_marker@, end_marker@) == Some(t@),
            None => between(content@, start_marker@, end_marker@) is None,
        },
{
    let hay = chars_of(content);
    let start = chars_of(start_marker);
    let end = chars_of(end_marker);
    match find_chars(&hay, &start, 0) {
        Some(start_idx) => {
            proof {
                crate::text::lemma_find_from(hay@, start@, 0);
            }
            let n = hay.len();
            assert(start_idx + start@.len() <= n);
            let from = start_idx + start.len();
            match find_chars(&hay, &end, from) {
                Some(end_idx) => {
                    proof {
                        crate::text::lemma_find_from(hay@, end@, from as int);
                    }
                    Some(content.substring_char(from, end_idx))
                },
                None => None,
            }
        },
        None => None,
    }
}

fn has_text(content: &str, needle: &str) -> (r: bool)
    ensures
        r == contains(content@, needle@),
{
    let hay = chars_of(content);
    let n = chars_of(needle);
    find_chars(&hay, &n, 0).is_some()
}

fn page_title(content: &str) -> (r: String)
    ensures
        r@ == title_of(content@),
{
    match extract_between(content, "<title>", "</title>") {
        Some(t) => String::from_str(t),
        None => String::from_str("未找到"),
    }
}

impl StaticMonitor {
    /// Create a new static webpage monitor. The whole page is watched: the
    /// selector is accepted and not used.
    pub fn new(url: &str, _selector: &str, interval_secs: u64) -> (r: Self)
        ensures
            r@ == (StaticMonitorView {
                url: url@,
                interval_secs,
                last_content: None,
                notes: url@,
            }),
    {
        StaticMonitor {
            url: String::from_str(url),
            interval_secs,
            last_content: None,
            notes: String::from_str(url),
        }
    }

    /// Create a new static webpage monitor with notes. Blank notes leave the
    /// URL as the note.
    pub fn new_with_notes(url: &str, selector: &str, interval_secs: u64, notes: &str) -> (r: Self)
        ensures
            r@ == (StaticMonitorView {
                url: url@,
                interval_secs,
                last_content: None,
                notes: if blank(notes@) {
                    url@
                } else {
                    notes@
                },
            }),
    {
        let mut monitor = Self::new(url, selector, interval_secs);
        if !is_blank(notes) {
            monitor.notes = String::from_str(notes);
        }
        monitor
    }

    /// Set notes/remarks. Blank notes change nothing.
    pub fn set_notes(&mut self, notes: &str)
        ensures
            final(self)@ == (StaticMonitorView {
                notes: if blank(notes@) {
                    old(self)@.notes
                } else {
                    notes@
                },
                ..old(self)@
            }),
    {
        if !is_blank(notes) {
            self.notes = String::from_str(notes);
        }
    }

    /// The request that a check needs answered.
    pub fn request(&self) -> (r: FetchRequest)
        ensures
            r@ == (FetchRequestView::Get { url: self@.url }),
    {
        FetchRequest::Get { url: self.url.clone() }
    }

    /// How the new content differs from the old one, in words.
    pub fn generate_change_description(&self, old_content: &str, new_content: &str) -> (r: String)
        ensures
            r@ == change_description(old_content@, new_content@),
    {
        let old_len = byte_length(old_content);
        let new_len = byte_length(new_content);
        let mut changes = String::new();
        if new_len > old_len {
            changes.append("内容增加: ");
            push_decimal(&mut changes, old_len as u64);
            changes.append(" -> ");
            push_decimal(&mut changes, new_len as u64);
            changes.append(" 字节 (增加 ");
            push_decimal(&mut changes, (new_len - old_len) as u64);
            changes.append(" 字节)\n");
        } else if new_len < old_len {
            changes.append("内容减少: ");
            push_decimal(&mut changes, old_len as u64);
            changes.append(" -> ");
            push_decimal(&mut changes, new_len as u64);
            changes.append(" 字节 (减少 ");
            push_decimal(&mut changes, (old_len - new_len) as u64);
            changes.append(" 字节)\n");
        } else {
            changes.append("内容长度相同，但内容已变化\n");
        }
        assert(changes@ =~= length_line(byte_len(old_content@), byte_len(new_content@)));
        if has_text(old_content, "<title>") && has_text(new_content, "<title>") {
            let old_title = page_title(old_content);
            let new_title = page_title(new_content);
            if old_title != new_title {
                changes.append("Title changed: '");
                changes.append(old_title.as_str());
                changes.append("' -> '");
                changes.append(new_title.as_str());
                changes.append("'\n");
            }
        }
        assert(changes@ =~= change_description(old_content@, new_content@));
        changes
    }

    /// One look at freshly fetched content: the first look reports the start
    /// of monitoring, a later one reports a difference or nothing. The content
    /// becomes the baseline either way.
    pub fn observe(&mut self, content: String) -> (r: Option<Change>)
        ensures
            final(self)@ == after_observing(old(self)@, content@),
            match r {
                Some(c) => observed(old(self)@, content@) == Some(c@),
                None => observed(old(self)@, content@) is None,
            },
    {
        let change = match &self.last_content {
            Some(last) => {
                if *last != content {
                    let description = self.generate_change_description(
                        last.as_str(),
                        content.as_str(),
                    );
                    let mut message = self.notes.clone();
                    message.append(" ");
                    message.append(description.as_str());
                    let mut details = String::from_str("Changes:\n");
                    details.append(description.as_str());
                    details.append("\n\nCurrent content length: ");
                    push_decimal(&mut details, byte_length(content.as_str()) as u64);
                    details.append(" bytes\n\nPrevious content length: ");
                    push_decimal(&mut details, byte_length(last.as_str()) as u64);
                    details.append(" bytes");
                    Some(Change { message, details })
                } else {
                    None
                }
            },
            None => {
                let mut message = String::from_str("start: ");
                message.append(self.notes.as_str());
                let mut details = String::from_str("Initial content length: ");
                push_decimal(&mut details, byte_length(content.as_str()) as u64);
                details.append(" bytes");
                Some(Change { message, details })
            },
        };
        self.last_content = Some(content);
        change
    }

    /// One check, given how the fetch ended. A failed fetch is an error and
    /// leaves the baseline untouched.
    pub fn check(&mut self, reply: FetchReply) -> (r: CheckResult)
        ensures
            final(self)@ == after_check(old(self)@, reply@),
            result_view(r) == checked(old(self)@, reply@),
    {
        match reply {
            FetchReply::Failed(reason) => Err(FetchError::Network(reason)),
            FetchReply::Status(code) => Err(FetchError::Status(code)),
            FetchReply::Body(content) => Ok(self.observe(content)),
        }
    }
}

/// How a check goes on after `event`: the state it leaves and the step that ends it.
pub open spec fn resumed(pre: StaticMonitorView, event: CheckEventView) -> (
    StaticMonitorView,
    StepView,
) {
    match event {
        CheckEventView::Reply(reply) => (
            after_check(pre, reply),
            StepView::Done(checked(pre, reply)),
        ),
        CheckEventView::Numbers(_) => (pre, StepView::Done(Ok(None))),
    }
}

impl Monitor for StaticMonitor {
    open spec fn interval_secs(&self) -> u64 {
        self@.interval_secs
    }

    open spec fn name(&self) -> Seq<char> {
        "Static webpage monitor for "@ + self@.url
    }

    open spec fn notes(&self) -> Seq<char> {
        self@.notes
    }

    /// Begins a check: the page is to be fetched.
    fn start_check(&mut self) -> (r: Step)
        ensures
            final(self)@ == old(self)@,
            r@ == StepView::Fetch(FetchRequestView::Get { url: old(self)@.url }),
    {
        Step::Fetch(self.request())
    }

    /// Ends the check with what the fetched page shows.
    fn resume_check(&mut self, event: CheckEvent) -> (r: Step)
        ensures
            (final(self)@, r@) == resumed(old(self)@, event@),
    {
        match event {
            CheckEvent::Reply(reply) => Step::Done(self.check(reply)),
            CheckEvent::Numbers(_) => Step::Done(Ok(None)),
        }
    }

    /// Monitoring interval (seconds).
    fn interval(&self) -> (r: u64)
        ensures
            r == self@.interval_secs,
    {
        self.interval_secs
    }

    /// Name of the monitor, for notifications.
    fn get_name(&self) -> (r: String)
        ensures
            r@ == "Static webpage monitor for "@ + self@.url,
    {
        let mut s = String::from_str("Static webpage monitor for ");
        s.append(self.url.as_str());
        s
    }

    /// The notes that prefix every alert of this monitor.
    fn get_notes(&self) -> (r: String)
        ensures
            r@ == self@.notes,
    {
        self.notes.clone()
    }
}

/// The first look at a page reports the start of monitoring under the notes
/// of the monitor: the summary is the start marker with the notes right
/// behind it. A second look at the same content reports nothing.
pub proof fn law_first_look_then_silence(pre: StaticMonitorView, content: Seq<char>)
    requires
        pre.last_content is None,
    ensures
        observed(pre, content) is Some,
        observed(pre, content).unwrap().message == "start: "@ + pre.notes,
        observed(pre, content).unwrap().message.len() == 7 + pre.notes.len(),
        observed(pre, content).unwrap().message.skip(7) == pre.notes,
        observed(after_observing(pre, content), content) is None,
{
    reveal_strlit("start: ");
    let message = "start: "@ + pre.notes;
    assert(message.skip(7) =~= pre.notes);
}

/// Once a page was seen, the baseline is never missing again, whatever the
/// later fetches bring.
pub proof fn law_baseline_stays(pre: StaticMonitorView, reply: FetchReplyView)
    requires
        pre.last_content is Some,
    ensures
        after_check(pre, reply).last_content is Some,
{
}

} // verus!
