//! The routine of one running task, as a state machine: it is told how each
//! check and each notification ended, and says what is to be done next. The
//! caller performs what it says; the loop itself never waits and never ends
//! on its own.

use crate::config::{TaskStatus, TaskStatusView};
use crate::events::{push_task_number, task_number, LogColor, Message, MessageView};
use crate::monitors::{error_text, result_view, Change, ChangeView, CheckResult, FetchErrorView};
use vstd::prelude::*;
use vstd::string::*;

verus! {

/// Where a poll loop stands.
#[derive(Debug, PartialEq, Eq, Clone, Copy, Structural)]
pub enum LoopState {
    /// No check was made yet.
    AwaitingFirstCheck,
    /// The last check ended without an error.
    SteadyPolling,
    /// The last check ended with an error; the next one comes after a full interval.
    Backoff,
    /// The loop was cancelled from outside. It does nothing any more.
    Cancelled,
}

/// The notification whose outcome a poll loop waits for.
#[derive(Debug)]
pub enum Pending {
    /// None.
    Nothing,
    /// The one about the change of the first check, with its title.
    FirstChange(String),
    /// The one about a change of a later check.
    LaterChange,
}

/// What a `Pending` holds.
pub enum PendingView {
    Nothing,
    FirstChange(Seq<char>),
    LaterChange,
}

impl View for Pending {
    type V = PendingView;

    open spec fn view(&self) -> PendingView {
        match self {
            Pending::Nothing => PendingView::Nothing,
            Pending::FirstChange(t) => PendingView::FirstChange(t@),
            Pending::LaterChange => PendingView::LaterChange,
        }
    }
}

/// What the caller of a poll loop is to do, in the order given.
#[derive(Debug)]
pub enum LoopAction {
    /// Hand the message to the observer, without waiting for it.
    Emit(Message),
    /// Check the source and come back with the result.
    Check,
    /// Send the notification and come back with the outcome.
    Notify { title: String, body: String },
    /// Wait this many seconds.
    Sleep(u64),
}

/// What a `LoopAction` holds.
pub enum LoopActionView {
    Emit(MessageView),
    Check,
    Notify { title: Seq<char>, body: Seq<char> },
    Sleep(u64),
}

impl View for LoopAction {
    type V = LoopActionView;

    open spec fn view(&self) -> LoopActionView {
        match self {
            LoopAction::Emit(m) => LoopActionView::Emit(m@),
            LoopAction::Check => LoopActionView::Check,
            LoopAction::Notify { title, body } => LoopActionView::Notify {
                title: title@,
                body: body@,
            },
            LoopAction::Sleep(secs) => LoopActionView::Sleep(*secs),
        }
    }
}

/// What a list of actions holds.
pub open spec fn actions_view(a: Seq<LoopAction>) -> Seq<LoopActionView> {
    Seq::new(a.len(), |i: int| a[i]@)
}

/// The routine of one running task.
pub struct PollLoop {
    task_index: usize,
    interval_secs: u64,
    notes: String,
    notify: bool,
    state: LoopState,
    pending: Pending,
}

/// The state of a `PollLoop`.
pub struct PollLoopView {
    pub task_index: usize,
    pub interval_secs: u64,
    pub notes: Seq<char>,
    pub notify: bool,
    pub state: LoopState,
    pub pending: PendingView,
}

impl View for PollLoop {
    type V = PollLoopView;

    closed spec fn view(&self) -> PollLoopView {
        PollLoopView {
            task_index: self.task_index,
            interval_secs: self.interval_secs,
            notes: self.notes@,
            notify: self.notify,
            state: self.state,
            pending: self.pending@,
        }
    }
}

/// A loop that has not begun.
pub open spec fn fresh(
    task_index: usize,
    interval_secs: u64,
    notes: Seq<char>,
    notify: bool,
) -> PollLoopView {
    PollLoopView {
        task_index,
        interval_secs,
        notes,
        notify,
        state: LoopState::AwaitingFirstCheck,
        pending: PendingView::Nothing,
    }
}

/// The wait for the next check, and the check.
pub open spec fn next_cycle(pre: PollLoopView) -> Seq<LoopActionView> {
    seq![LoopActionView::Sleep(pre.interval_secs), LoopActionView::Check]
}

/// A log line as an action.
pub open spec fn log(text: Seq<char>, color: LogColor) -> LoopActionView {
    LoopActionView::Emit(MessageView::Log(text, color))
}

/// The title of the notification about a change of a later check.
pub open spec fn change_title(pre: PollLoopView, change: ChangeView) -> Seq<char> {
    "["@ + pre.notes + "] "@ + change.message
}

/// The title of the notification about the change of the first check.
pub open spec fn start_title(pre: PollLoopView, change: ChangeView) -> Seq<char> {
    "["@ + pre.notes + "] Started monitoring: "@ + change.message
}

/// The log line of a check that found no change.
pub open spec fn no_change_line(pre: PollLoopView) -> LoopActionView {
    log("Task #"@ + task_number(pre.task_index) + " detected no changes"@, LogColor::Gray)
}

/// What the loop asks for when it begins: it reports that the task runs and
/// checks at once, before any wait.
pub open spec fn begun(pre: PollLoopView) -> Seq<LoopActionView> {
    if pre.state == LoopState::Cancelled {
        Seq::empty()
    } else {
        seq![
            LoopActionView::Emit(
                MessageView::TaskStatusChanged(pre.task_index, TaskStatusView::Running),
            ),
            LoopActionView::Check,
        ]
    }
}

/// The state of the loop after a check ended with `result`: only a change
/// that is notified leaves a notification pending.
pub open spec fn after_check(
    pre: PollLoopView,
    result: Result<Option<ChangeView>, FetchErrorView>,
) -> PollLoopView {
    if pre.state == LoopState::Cancelled {
        pre
    } else {
        match result {
            Err(_) => PollLoopView {
                state: LoopState::Backoff,
                pending: PendingView::Nothing,
                ..pre
            },
            Ok(found) => PollLoopView {
                state: LoopState::SteadyPolling,
                pending: match found {
                    Some(change) => if !pre.notify {
                        PendingView::Nothing
                    } else if pre.state == LoopState::AwaitingFirstCheck {
                        PendingView::FirstChange(start_title(pre, change))
                    } else {
                        PendingView::LaterChange
                    },
                    None => PendingView::Nothing,
                },
                ..pre
            },
        }
    }
}

/// What the loop asks for after a check ended with `result`. A change is
/// handed to the observer and then notified; no change is logged and
/// nothing else; an error is reported and followed by a full interval of
/// waiting; the status that is reported carries the reason of the error.
/// In every case that does not wait for a notification, the next
/// check comes after one interval.
pub open spec fn on_checked(
    pre: PollLoopView,
    result: Result<Option<ChangeView>, FetchErrorView>,
) -> Seq<LoopActionView> {
    let first = pre.state == LoopState::AwaitingFirstCheck;
    if pre.state == LoopState::Cancelled {
        Seq::empty()
    } else {
        match result {
            Ok(Some(change)) => {
                let detected = LoopActionView::Emit(
                    MessageView::ChangeDetected(pre.task_index, change),
                );
                if pre.notify {
                    seq![
                        detected,
                        LoopActionView::Notify {
                            title: if first {
                                start_title(pre, change)
                            } else {
                                change_title(pre, change)
                            },
                            body: change.details,
                        },
                    ]
                } else {
                    seq![detected] + next_cycle(pre)
                }
            },
            Ok(None) => seq![no_change_line(pre)] + next_cycle(pre),
            Err(e) => {
                let status = LoopActionView::Emit(
                    MessageView::TaskStatusChanged(
                pre.task_index,
                TaskStatusView::Error(error_text(e)),
            ),
                );
                if first {
                    seq![
                        status,
                        log("Error getting initial content: "@ + error_text(e), LogColor::Red),
                    ] + next_cycle(pre)
                } else {
                    seq![status] + next_cycle(pre)
                }
            },
        }
    }
}

/// The state of the loop after a notification ended.
pub open spec fn after_delivery(pre: PollLoopView) -> PollLoopView {
    if pre.state == LoopState::Cancelled {
        pre
    } else {
        PollLoopView { pending: PendingView::Nothing, ..pre }
    }
}

/// The log line about the notification of a first check.
pub open spec fn first_delivery_line(title: Seq<char>, outcome: Result<(), Seq<char>>) -> LoopActionView {
    match outcome {
        Ok(()) => log("Initial notification sent: "@ + title, LogColor::LightBlue),
        Err(e) => log("Failed to send initial notification: "@ + e, LogColor::Red),
    }
}

/// What the loop asks for after a notification ended with `outcome`: a
/// failure is logged and stops nothing; the next check comes after one
/// interval.
pub open spec fn on_delivered(pre: PollLoopView, outcome: Result<(), Seq<char>>) -> Seq<
    LoopActionView,
> {
    if pre.state == LoopState::Cancelled {
        Seq::empty()
    } else {
        match pre.pending {
            PendingView::Nothing => Seq::empty(),
            PendingView::FirstChange(title) => seq![first_delivery_line(title, outcome)]
                + next_cycle(pre),
            PendingView::LaterChange => match outcome {
                Ok(()) => next_cycle(pre),
                Err(e) => seq![log("Failed to send notification: "@ + e, LogColor::Red)]
                    + next_cycle(pre),
            },
        }
    }
}

/// What the outcome of a notification holds.
pub open spec fn outcome_view(outcome: Result<(), String>) -> Result<(), Seq<char>> {
    match outcome {
        Ok(()) => Ok(()),
        Err(e) => Err(e@),
    }
}

impl PollLoop {
    /// The routine of the task with this index. `notify` says whether changes
    /// are notified.
    pub fn new(task_index: usize, interval_secs: u64, notes: &str, notify: bool) -> (r: Self)
        ensures
            r@ == fresh(task_index, interval_secs, notes@, notify),
    {
        PollLoop {
            task_index,
            interval_secs,
            notes: String::from_str(notes),
            notify,
            state: LoopState::AwaitingFirstCheck,
            pending: Pending::Nothing,
        }
    }

    /// The index of the task that the loop belongs to.
    pub fn task_index(&self) -> (r: usize)
        ensures
            r == self@.task_index,
    {
        self.task_index
    }

    /// Where the loop stands.
    pub fn state(&self) -> (r: LoopState)
        ensures
            r == self@.state,
    {
        self.state
    }

    fn push_next_cycle(&self, actions: &mut Vec<LoopAction>)
        ensures
            actions_view(final(actions)@) == actions_view(old(actions)@) + next_cycle(self@),
    {
        let ghost before = actions_view(actions@);
        actions.push(LoopAction::Sleep(self.interval_secs));
        actions.push(LoopAction::Check);
        assert(actions_view(actions@) =~= before + next_cycle(self@));
    }

    fn push_log(actions: &mut Vec<LoopAction>, text: String, color: LogColor)
        ensures
            actions_view(final(actions)@) == actions_view(old(actions)@).push(log(text@, color)),
    {
        let ghost before = actions_view(actions@);
        actions.push(LoopAction::Emit(Message::Log(text, color)));
        assert(actions_view(actions@) =~= before.push(log(text@, color)));
    }

    fn start_title_text(&self, change: &Change) -> (r: String)
        ensures
            r@ == start_title(self@, change@),
    {
        let mut title = String::from_str("[");
        title.append(self.notes.as_str());
        title.append("] Started monitoring: ");
        title.append(change.message.as_str());
        title
    }

    /// Begins the loop: the task is reported as running and checked at once.
    pub fn start(&self) -> (r: Vec<LoopAction>)
        ensures
            actions_view(r@) == begun(self@),
    {
        let mut actions: Vec<LoopAction> = Vec::new();
        if self.state != LoopState::Cancelled {
            actions.push(
                LoopAction::Emit(Message::TaskStatusChanged(self.task_index, TaskStatus::Running)),
            );
            actions.push(LoopAction::Check);
        }
        assert(actions_view(actions@) =~= begun(self@));
        actions
    }

    /// Takes the result of a check and says what is to be done next.
    pub fn on_check(&mut self, result: CheckResult) -> (r: Vec<LoopAction>)
        requires
            old(self)@.task_index < usize::MAX,
        ensures
            final(self)@ == after_check(old(self)@, result_view(result)),
            actions_view(r@) == on_checked(old(self)@, result_view(result)),
    {
        let mut actions: Vec<LoopAction> = Vec::new();
        assert(actions_view(actions@) =~= Seq::<LoopActionView>::empty());
        if self.state == LoopState::Cancelled {
            return actions;
        }
        let first = self.state == LoopState::AwaitingFirstCheck;
        match result {
            Ok(Some(change)) => {
                let title = if first {
                    self.start_title_text(&change)
                } else {
                    let mut t = String::from_str("[");
                    t.append(self.notes.as_str());
                    t.append("] ");
                    t.append(change.message.as_str());
                    t
                };
                let body = change.details.clone();
                let ghost change_view = change@;
                actions.push(LoopAction::Emit(Message::ChangeDetected(self.task_index, change)));
                if self.notify {
                    self.pending = if first {
                        Pending::FirstChange(title.clone())
                    } else {
                        Pending::LaterChange
                    };
                    actions.push(LoopAction::Notify { title, body });
                    assert(actions_view(actions@) =~= on_checked(
                        old(self)@,
                        Ok(Some(change_view)),
                    ));
                } else {
                    self.pending = Pending::Nothing;
                    let ghost before = actions_view(actions@);
                    assert(before =~= seq![
                        LoopActionView::Emit(
                            MessageView::ChangeDetected(old(self)@.task_index, change_view),
                        ),
                    ]);
                    self.push_next_cycle(&mut actions);
                }
                self.state = LoopState::SteadyPolling;
            },
            Ok(None) => {
                self.pending = Pending::Nothing;
                let mut text = String::from_str("Task #");
                push_task_number(&mut text, self.task_index);
                text.append(" detected no changes");
                Self::push_log(&mut actions, text, LogColor::Gray);
                self.push_next_cycle(&mut actions);
                assert(actions_view(actions@) =~= on_checked(old(self)@, Ok(None)));
                self.state = LoopState::SteadyPolling;
            },
            Err(e) => {
                self.pending = Pending::Nothing;
                let reason = e.to_text();
                actions.push(
                    LoopAction::Emit(
                        Message::TaskStatusChanged(
                            self.task_index,
                            TaskStatus::Error(reason.clone()),
                        ),
                    ),
                );
                if first {
                    let mut text = String::from_str("Error getting initial content: ");
                    text.append(reason.as_str());
                    Self::push_log(&mut actions, text, LogColor::Red);
                }
                self.push_next_cycle(&mut actions);
                assert(actions_view(actions@) =~= on_checked(old(self)@, Err(e@)));
                self.state = LoopState::Backoff;
            },
        }
        actions
    }

    fn push_first_delivery_line(actions: &mut Vec<LoopAction>, title: &String, outcome: &Result<(), String>)
        ensures
            actions_view(final(actions)@) == actions_view(old(actions)@).push(
                first_delivery_line(title@, outcome_view(*outcome)),
            ),
    {
        match outcome {
            Ok(()) => {
                let mut text = String::from_str("Initial notification sent: ");
                text.append(title.as_str());
                Self::push_log(actions, text, LogColor::LightBlue);
            },
            Err(e) => {
                let mut text = String::from_str("Failed to send initial notification: ");
                text.append(e.as_str());
                Self::push_log(actions, text, LogColor::Red);
            },
        }
    }

    /// Takes the outcome of a notification and says what is to be done next.
    pub fn on_delivery(&mut self, outcome: Result<(), String>) -> (r: Vec<LoopAction>)
        requires
            old(self)@.task_index < usize::MAX,
        ensures
            final(self)@ == after_delivery(old(self)@),
            actions_view(r@) == on_delivered(old(self)@, outcome_view(outcome)),
    {
        let mut actions: Vec<LoopAction> = Vec::new();
        assert(actions_view(actions@) =~= Seq::<LoopActionView>::empty());
        if self.state == LoopState::Cancelled {
            return actions;
        }
        let mut pending = Pending::Nothing;
        std::mem::swap(&mut self.pending, &mut pending);
        match pending {
            Pending::Nothing => {},
            Pending::FirstChange(title) => {
                Self::push_first_delivery_line(&mut actions, &title, &outcome);
                self.push_next_cycle(&mut actions);
                assert(actions_view(actions@) =~= on_delivered(old(self)@, outcome_view(outcome)));
            },
            Pending::LaterChange => {
                match outcome {
                    Ok(()) => {},
                    Err(e) => {
                        let mut text = String::from_str("Failed to send notification: ");
                        text.append(e.as_str());
                        Self::push_log(&mut actions, text, LogColor::Red);
                    },
                }
                self.push_next_cycle(&mut actions);
                assert(actions_view(actions@) =~= on_delivered(old(self)@, outcome_view(outcome)));
            },
        }
        actions
    }

    /// Cancels the loop: from now on it asks for nothing.
    pub fn cancel(&mut self)
        ensures
            final(self)@ == (PollLoopView {
                state: LoopState::Cancelled,
                pending: PendingView::Nothing,
                ..old(self)@
            }),
    {
        self.state = LoopState::Cancelled;
        self.pending = Pending::Nothing;
    }
}

/// A cancelled loop asks for nothing and stays cancelled, whatever it is told.
pub proof fn law_cancelled_is_silent(
    pre: PollLoopView,
    result: Result<Option<ChangeView>, FetchErrorView>,
    outcome: Result<(), Seq<char>>,
)
    requires
        pre.state == LoopState::Cancelled,
    ensures
        begun(pre).len() == 0,
        on_checked(pre, result).len() == 0,
        on_delivered(pre, outcome).len() == 0,
        after_check(pre, result) == pre,
        after_delivery(pre) == pre,
{
}

/// The loop never ends on its own: only a loop that was cancelled is cancelled
/// after a check or a notification.
pub proof fn law_only_cancel_ends_the_loop(
    pre: PollLoopView,
    result: Result<Option<ChangeView>, FetchErrorView>,
)
    requires
        pre.state != LoopState::Cancelled,
    ensures
        after_check(pre, result).state != LoopState::Cancelled,
        after_delivery(pre).state != LoopState::Cancelled,
{
}

/// Errors do not spin: after a failed check the loop backs off, and what it
/// asks for ends with a wait of one full interval before the next check.
pub proof fn law_errors_back_off(pre: PollLoopView, e: FetchErrorView)
    requires
        pre.state != LoopState::Cancelled,
    ensures
        after_check(pre, Err(e)).state == LoopState::Backoff,
        on_checked(pre, Err(e)).len() >= 3,
        on_checked(pre, Err(e))[0] == LoopActionView::Emit(
            MessageView::TaskStatusChanged(
                pre.task_index,
                TaskStatusView::Error(error_text(e)),
            ),
        ),
        on_checked(pre, Err(e))[on_checked(pre, Err(e)).len() - 2] == LoopActionView::Sleep(
            pre.interval_secs,
        ),
        on_checked(pre, Err(e)).last() == LoopActionView::Check,
{
}

/// A change is handed to the observer first, whether or not it is notified.
pub proof fn law_changes_reach_the_observer(pre: PollLoopView, change: ChangeView)
    requires
        pre.state != LoopState::Cancelled,
    ensures
        on_checked(pre, Ok(Some(change)))[0] == LoopActionView::Emit(
            MessageView::ChangeDetected(pre.task_index, change),
        ),
{
}

/// A failed notification stops nothing: the next check follows after one interval.
pub proof fn law_failed_delivery_goes_on(pre: PollLoopView, reason: Seq<char>)
    requires
        pre.state != LoopState::Cancelled,
        pre.pending != PendingView::Nothing,
    ensures
        on_delivered(pre, Err(reason)).len() >= 2,
        on_delivered(pre, Err(reason)).last() == LoopActionView::Check,
        on_delivered(pre, Err(reason))[on_delivered(pre, Err(reason)).len() - 2]
            == LoopActionView::Sleep(pre.interval_secs),
        after_delivery(pre).state == pre.state,
{
}

/// What the loop asks for holds at most one check, as its last action, and
/// at most one notification, as its last action.
pub open spec fn one_thing_at_a_time(actions: Seq<LoopActionView>) -> bool {
    forall|i: int|
        0 <= i < actions.len() - 1 ==> (#[trigger] actions[i]) != LoopActionView::Check
            && !(actions[i] is Notify)
}

/// Every check after the first follows a wait of one interval.
pub open spec fn waits_before_checking(actions: Seq<LoopActionView>, interval_secs: u64) -> bool {
    actions.len() > 0 && actions.last() == LoopActionView::Check ==> actions.len() >= 2
        && actions[actions.len() - 2] == LoopActionView::Sleep(interval_secs)
}

/// Checks of one task never overlap and never spin: whatever the loop is
/// told, it asks for one thing to come back with at a time, and for a check
/// only after a wait of one interval. The first check alone comes at once.
pub proof fn law_checks_are_sequential(
    pre: PollLoopView,
    result: Result<Option<ChangeView>, FetchErrorView>,
    outcome: Result<(), Seq<char>>,
)
    ensures
        one_thing_at_a_time(begun(pre)),
        one_thing_at_a_time(on_checked(pre, result)),
        one_thing_at_a_time(on_delivered(pre, outcome)),
        waits_before_checking(on_checked(pre, result), pre.interval_secs),
        waits_before_checking(on_delivered(pre, outcome), pre.interval_secs),
        pre.state != LoopState::Cancelled ==> begun(pre).last() == LoopActionView::Check,
{
}

} // verus!
