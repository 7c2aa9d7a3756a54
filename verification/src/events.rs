//! What running tasks report to their observer, the queue that carries the
//! reports, and the log that the observer keeps of them.

use crate::config::{status_text, TaskStatus, TaskStatusView};
use crate::decimal::{decimal, push_decimal};
use crate::monitors::{Change, ChangeView};
use vstd::prelude::*;
use vstd::string::*;

verus! {

/// The colour in which a log line is shown; it stands for its severity.
#[derive(Debug, PartialEq, Eq, Clone, Copy, Structural)]
pub enum LogColor {
    Green,
    White,
    Red,
    Yellow,
    LightBlue,
    LightRed,
    Gold,
    Gray,
    LightGreen,
}

/// Message type
#[derive(Debug)]
pub enum Message {
    /// A line for the log
    Log(String, LogColor),
    /// The task with this index has this status now
    TaskStatusChanged(usize, TaskStatus),
    /// The task with this index detected this change
    ChangeDetected(usize, Change),
}

/// What a `Message` holds.
pub enum MessageView {
    Log(Seq<char>, LogColor),
    TaskStatusChanged(usize, TaskStatusView),
    ChangeDetected(usize, ChangeView),
}

impl View for Message {
    type V = MessageView;

    open spec fn view(&self) -> MessageView {
        match self {
            Message::Log(text, color) => MessageView::Log(text@, *color),
            Message::TaskStatusChanged(i, status) => MessageView::TaskStatusChanged(*i, status@),
            Message::ChangeDetected(i, change) => MessageView::ChangeDetected(*i, change@),
        }
    }
}

/// What a list of messages holds.
pub open spec fn messages_view(ms: Seq<Message>) -> Seq<MessageView> {
    Seq::new(ms.len(), |i: int| ms[i]@)
}

/// The number under which a task is shown: its index counted from one.
pub open spec fn task_number(index: usize) -> Seq<char> {
    decimal((index + 1) as nat)
}

/// The colour of a status.
pub open spec fn status_color(s: TaskStatusView) -> LogColor {
    match s {
        TaskStatusView::Running => LogColor::Green,
        TaskStatusView::Idle => LogColor::Yellow,
        TaskStatusView::Error(_) => LogColor::Red,
    }
}

/// The log line that an observer shows for a message.
pub open spec fn log_line(m: MessageView) -> (Seq<char>, LogColor) {
    match m {
        MessageView::Log(text, color) => (text, color),
        MessageView::TaskStatusChanged(i, status) => (
            "Task #"@ + task_number(i) + " status changed to: "@ + status_text(status),
            status_color(status),
        ),
        MessageView::ChangeDetected(i, change) => (
            "Task #"@ + task_number(i) + " detected change: "@ + change.message,
            LogColor::Gold,
        ),
    }
}

/// Appends the number under which a task is shown.
pub fn push_task_number(out: &mut String, index: usize)
    requires
        index < usize::MAX,
    ensures
        final(out)@ == old(out)@ + task_number(index),
{
    push_decimal(out, (index + 1) as u64);
}

/// The log line that an observer shows for a message.
pub fn message_log(m: &Message) -> (r: (String, LogColor))
    requires
        m matches Message::TaskStatusChanged(i, _) ==> i < usize::MAX,
        m matches Message::ChangeDetected(i, _) ==> i < usize::MAX,
    ensures
        (r.0@, r.1) == log_line(m@),
{
    match m {
        Message::Log(text, color) => (text.clone(), *color),
        Message::TaskStatusChanged(i, status) => {
            let mut s = String::from_str("Task #");
            push_task_number(&mut s, *i);
            s.append(" status changed to: ");
            s.append(status.to_text().as_str());
            let color = match status {
                TaskStatus::Running => LogColor::Green,
                TaskStatus::Idle => LogColor::Yellow,
                TaskStatus::Error(_) => LogColor::Red,
            };
            (s, color)
        },
        Message::ChangeDetected(i, change) => {
            let mut s = String::from_str("Task #");
            push_task_number(&mut s, *i);
            s.append(" detected change: ");
            s.append(change.message.as_str());
            (s, LogColor::Gold)
        },
    }
}

/// An ordered queue of messages with a bound: what is published when the
/// queue is full is dropped, so that a slow observer never holds up a task.
pub struct EventBus {
    queue: Vec<Message>,
    capacity: usize,
}

/// The state of an `EventBus`.
pub struct EventBusView {
    pub queue: Seq<MessageView>,
    pub capacity: usize,
}

impl View for EventBus {
    type V = EventBusView;

    closed spec fn view(&self) -> EventBusView {
        EventBusView { queue: messages_view(self.queue@), capacity: self.capacity }
    }
}

impl EventBus {
    /// An empty queue that holds up to `capacity` messages.
    pub fn new(capacity: usize) -> (r: Self)
        ensures
            r@ == (EventBusView { queue: Seq::empty(), capacity }),
    {
        let r = EventBus { queue: Vec::new(), capacity };
        assert(messages_view(r.queue@) =~= Seq::<MessageView>::empty());
        r
    }

    /// Puts a message at the end of the queue, or drops it where the queue is
    /// full; says whether it was taken.
    pub fn publish(&mut self, message: Message) -> (taken: bool)
        ensures
            taken == (old(self)@.queue.len() < old(self)@.capacity),
            final(self)@.capacity == old(self)@.capacity,
            final(self)@.queue == if taken {
                old(self)@.queue.push(message@)
            } else {
                old(self)@.queue
            },
    {
        if self.queue.len() < self.capacity {
            let ghost before = messages_view(self.queue@);
            self.queue.push(message);
            assert(messages_view(self.queue@) =~= before.push(message@));
            true
        } else {
            false
        }
    }

    /// Takes the oldest message from the queue.
    pub fn take(&mut self) -> (r: Option<Message>)
        ensures
            final(self)@.capacity == old(self)@.capacity,
            match r {
                Some(m) => old(self)@.queue.len() > 0 && m@ == old(self)@.queue[0]
                    && final(self)@.queue == old(self)@.queue.drop_first(),
                None => old(self)@.queue.len() == 0 && final(self)@ == old(self)@,
            },
    {
        if self.queue.len() == 0 {
            None
        } else {
            let ghost before = messages_view(self.queue@);
            let m = self.queue.remove(0);
            assert(messages_view(self.queue@) =~= before.drop_first());
            Some(m)
        }
    }

    /// How many messages wait in the queue.
    pub fn len(&self) -> (r: usize)
        ensures
            r == self@.queue.len(),
    {
        self.queue.len()
    }
}

/// How many lines the log keeps.
pub const MAX_LOGS: usize = 100;

/// The lines of a log.
pub struct LogBuffer {
    logs: Vec<(String, LogColor)>,
}

/// What a list of log lines holds.
pub open spec fn logs_view(logs: Seq<(String, LogColor)>) -> Seq<(Seq<char>, LogColor)> {
    Seq::new(logs.len(), |i: int| (logs[i].0@, logs[i].1))
}

/// The log after a line was added: a full log gives up its oldest line.
pub open spec fn with_line(
    logs: Seq<(Seq<char>, LogColor)>,
    timestamp: Seq<char>,
    message: Seq<char>,
    color: LogColor,
) -> Seq<(Seq<char>, LogColor)> {
    let line = (timestamp + " "@ + message, color);
    if logs.len() >= MAX_LOGS {
        logs.drop_first().push(line)
    } else {
        logs.push(line)
    }
}

/// The pattern of the time in front of a log line.
pub open spec fn stamp_pattern() -> Seq<char> {
    "[%H:%M:%S]"@
}

/// The shape of the time in front of a log line: `[dd:dd:dd]`.
pub open spec fn stamp_shaped(t: Seq<char>) -> bool {
    &&& t.len() == 10
    &&& t[0] == '['
    &&& t[3] == ':'
    &&& t[6] == ':'
    &&& t[9] == ']'
    &&& forall|i: int|
        0 < i < 9 && i != 3 && i != 6 ==> crate::text::is_digit(#[trigger] t[i])
}

/// `chrono::Local::now()`, rendered by `DateTime::format` with `pattern`:
/// hour, minute and second with two digits each, between brackets. The digits
/// depend on the clock, so nothing is stated of them.
#[verifier::external_body]
fn now_text(pattern: &str) -> (r: String)
    requires
        pattern@ == stamp_pattern(),
    ensures
        stamp_shaped(r@),
{
    chrono::Local::now().format(pattern).to_string()
}

impl View for LogBuffer {
    type V = Seq<(Seq<char>, LogColor)>;

    closed spec fn view(&self) -> Seq<(Seq<char>, LogColor)> {
        logs_view(self.logs@)
    }
}

impl LogBuffer {
    /// An empty log.
    pub fn new() -> (r: Self)
        ensures
            r@ == Seq::<(Seq<char>, LogColor)>::empty(),
    {
        let r = LogBuffer { logs: Vec::new() };
        assert(logs_view(r.logs@) =~= Seq::<(Seq<char>, LogColor)>::empty());
        r
    }

    /// Adds a line with the given time in front.
    pub fn push_line(&mut self, timestamp: &str, message: &str, color: LogColor)
        ensures
            final(self)@ == with_line(old(self)@, timestamp@, message@, color),
            old(self)@.len() <= MAX_LOGS ==> final(self)@.len() <= MAX_LOGS,
    {
        let mut line = String::from_str(timestamp);
        line.append(" ");
        line.append(message);
        let ghost before = logs_view(self.logs@);
        if self.logs.len() >= MAX_LOGS {
            let _ = self.logs.remove(0);
            assert(logs_view(self.logs@) =~= before.drop_first());
        }
        let ghost middle = logs_view(self.logs@);
        self.logs.push((line, color));
        assert(logs_view(self.logs@) =~= middle.push((timestamp@ + " "@ + message@, color)));
    }

    /// Add log: a line with the time of day in front.
    pub fn add_log(&mut self, message: &str, color: LogColor)
        ensures
            exists|timestamp: Seq<char>|
                stamp_shaped(timestamp) && final(self)@ == with_line(
                    old(self)@,
                    timestamp,
                    message@,
                    color,
                ),
    {
        let timestamp = now_text("[%H:%M:%S]");
        self.push_line(timestamp.as_str(), message, color);
        assert(stamp_shaped(timestamp@) && self@ == with_line(
            old(self)@,
            timestamp@,
            message@,
            color,
        ));
    }

    /// The lines of the log, oldest first.
    pub fn lines(&self) -> (r: Vec<(String, LogColor)>)
        ensures
            logs_view(r@) == self@,
    {
        let n = self.logs.len();
        let mut out: Vec<(String, LogColor)> = Vec::new();
        let mut i: usize = 0;
        while i < n
            invariant
                i <= n == self.logs@.len(),
                logs_view(out@) == logs_view(self.logs@).take(i as int),
            decreases n - i,
        {
            let ghost before = logs_view(out@);
            out.push((self.logs[i].0.clone(), self.logs[i].1));
            assert(logs_view(out@) =~= before.push((self.logs@[i as int].0@, self.logs@[i as int].1)));
            assert(logs_view(out@) =~= logs_view(self.logs@).take(i + 1));
            i += 1;
        }
        assert(logs_view(self.logs@).take(n as int) =~= logs_view(self.logs@));
        out
    }
}

} // verus!
