//! The supervisor of the tasks: it owns their configurations, their statuses
//! and the handles of their running loops, and decides what starting,
//! stopping and editing a task takes. It runs nothing itself: every operation
//! says what its caller is to do.

use crate::config::{
    source_kind, tasks_view, Configs, ConfigsView, NotificationConfig, NotificationConfigView,
    TaskConfig, TaskConfigView, TaskStatus, TaskStatusView, TaskType,
};
use crate::events::{push_task_number, task_number, LogColor, Message, MessageView};
use crate::monitors::Monitor;
use crate::monitors::adapter::{interval_of, notes_of, SourceAdapter, SourceAdapterView};
use crate::monitors::api_monitor::{ApiMonitor, ApiMonitorView};
use crate::monitors::hyperliquid_monitor::{CheckStage, HyperliquidMonitor, HyperliquidMonitorView};
use crate::monitors::static_monitor::{StaticMonitor, StaticMonitorView};
use crate::notifiers::server_chan::{lemma_with_keys_of_a_set, with_key, ServerChanNotifier};
use crate::poll_loop::{fresh, PollLoop, PollLoopView};
use crate::text::blank;
use vstd::prelude::*;
use vstd::seq_lib::seq_to_set_is_finite;
use vstd::set_lib::{lemma_int_range, lemma_len_subset, set_int_range};
use vstd::string::*;

verus! {

/// A task as the supervisor keeps it: what is configured, whether it runs,
/// and the handle of its loop while one is bound to it.
pub struct TaskEntry {
    config: TaskConfig,
    status: TaskStatus,
    handle: Option<u64>,
}

/// What a `TaskEntry` holds.
pub struct TaskEntryView {
    pub config: TaskConfigView,
    pub status: TaskStatusView,
    pub handle: Option<u64>,
}

impl View for TaskEntry {
    type V = TaskEntryView;

    closed spec fn view(&self) -> TaskEntryView {
        TaskEntryView { config: self.config@, status: self.status@, handle: self.handle }
    }
}

/// What a list of entries holds.
pub open spec fn entries_view(entries: Seq<TaskEntry>) -> Seq<TaskEntryView> {
    Seq::new(entries.len(), |i: int| entries[i]@)
}

/// Why a task cannot be started.
#[derive(Debug)]
pub enum ConfigurationError {
    /// The type of the task names no known kind of source.
    UnknownKind(String),
}

impl ConfigurationError {
    /// The error as one line of text.
    pub fn to_text(&self) -> (r: String)
        ensures
            match self {
                ConfigurationError::UnknownKind(t) => r@ == "Unknown task type: "@ + t@,
            },
    {
        match self {
            ConfigurationError::UnknownKind(t) => {
                let mut s = String::from_str("Unknown task type: ");
                s.append(t.as_str());
                s
            },
        }
    }
}

/// What the caller of the supervisor is to do, in the order given.
pub enum SupervisorAction {
    /// Cancel the loop with this handle.
    Cancel(u64),
    /// Run `poll_loop` on `adapter` as a task of its own, under this handle.
    Spawn { handle: u64, adapter: SourceAdapter, poll_loop: PollLoop },
    /// Show this line in the log.
    Log(String, LogColor),
    /// Save the configuration.
    SaveConfig,
}

/// What a `SupervisorAction` holds.
pub enum ActionView {
    Cancel(u64),
    Spawn { handle: u64, adapter: SourceAdapterView, poll_loop: PollLoopView },
    Log(Seq<char>, LogColor),
    SaveConfig,
}

impl View for SupervisorAction {
    type V = ActionView;

    open spec fn view(&self) -> ActionView {
        match self {
            SupervisorAction::Cancel(h) => ActionView::Cancel(*h),
            SupervisorAction::Spawn { handle, adapter, poll_loop } => ActionView::Spawn {
                handle: *handle,
                adapter: adapter@,
                poll_loop: poll_loop@,
            },
            SupervisorAction::Log(text, color) => ActionView::Log(text@, *color),
            SupervisorAction::SaveConfig => ActionView::SaveConfig,
        }
    }
}

/// What a list of actions holds.
pub open spec fn actions_view(a: Seq<SupervisorAction>) -> Seq<ActionView> {
    Seq::new(a.len(), |i: int| a[i]@)
}

/// The supervisor of the tasks.
pub struct TaskSupervisor {
    tasks: Vec<TaskEntry>,
    notification: NotificationConfig,
    notifier: Option<ServerChanNotifier>,
}

/// The state of a `TaskSupervisor`. Configuration, status and handle of a
/// task stand in one entry, so that they are aligned whatever happens.
pub struct SupervisorView {
    pub tasks: Seq<TaskEntryView>,
    pub notification: NotificationConfigView,
    pub notifier: Option<Seq<Seq<char>>>,
}

impl View for TaskSupervisor {
    type V = SupervisorView;

    closed spec fn view(&self) -> SupervisorView {
        SupervisorView {
            tasks: entries_view(self.tasks@),
            notification: self.notification@,
            notifier: match self.notifier {
                Some(n) => Some(n@),
                None => None,
            },
        }
    }
}

/// The notes of a monitor: the notes of its task, or `fallback` where they are blank.
pub open spec fn effective_notes(given: Seq<char>, fallback: Seq<char>) -> Seq<char> {
    if blank(given) {
        fallback
    } else {
        given
    }
}

/// The fresh adapter for a task; none where its type names no known kind.
pub open spec fn adapter_for(c: TaskConfigView) -> Option<SourceAdapterView> {
    match source_kind(c.task_type) {
        Some(TaskType::Static) => Some(
            SourceAdapterView::WebPage(
                StaticMonitorView {
                    url: c.url,
                    interval_secs: c.interval_secs,
                    last_content: None,
                    notes: effective_notes(c.notes, c.url),
                },
            ),
        ),
        Some(TaskType::Api) => Some(
            SourceAdapterView::ApiJson(
                ApiMonitorView {
                    url: c.url,
                    selector: c.selector,
                    last_value: None,
                    interval_secs: c.interval_secs,
                    notes: effective_notes(c.notes, c.url),
                },
            ),
        ),
        Some(TaskType::Hyperliquid) => Some(
            SourceAdapterView::ExchangeAccount(
                HyperliquidMonitorView {
                    address: c.address,
                    interval_secs: c.interval_secs,
                    monitor_spot: c.monitor_spot,
                    monitor_contract: c.monitor_contract,
                    last_spot_trade_id: None,
                    last_contract_trade_id: None,
                    last_positions_hash: None,
                    notes: effective_notes(c.notes, c.address),
                    stage: CheckStage::Idle,
                },
            ),
        ),
        None => None,
    }
}

/// The supervisor with entry `i` replaced.
pub open spec fn with_entry(pre: SupervisorView, i: int, entry: TaskEntryView) -> SupervisorView {
    SupervisorView { tasks: pre.tasks.update(i, entry), ..pre }
}

/// Stopping task `i`: a bound loop is cancelled and the task becomes idle;
/// where no loop is bound, or the index is out of range, nothing happens.
pub open spec fn stopped(pre: SupervisorView, i: usize) -> (SupervisorView, Seq<ActionView>) {
    if i < pre.tasks.len() && pre.tasks[i as int].handle is Some {
        let entry = pre.tasks[i as int];
        (
            with_entry(
                pre,
                i as int,
                TaskEntryView { status: TaskStatusView::Idle, handle: None, ..entry },
            ),
            seq![
                ActionView::Cancel(entry.handle->0),
                ActionView::Log(
                    "Stopped task #"@ + task_number(i) + ": "@ + entry.config.name,
                    LogColor::Yellow,
                ),
            ],
        )
    } else {
        (pre, Seq::empty())
    }
}

/// Stopping the first `n` tasks, one after the other.
pub open spec fn stopped_upto(pre: SupervisorView, n: usize) -> (SupervisorView, Seq<ActionView>)
    decreases n,
{
    if n == 0 {
        (pre, Seq::empty())
    } else {
        let before = stopped_upto(pre, (n - 1) as usize);
        let last = stopped(before.0, (n - 1) as usize);
        (last.0, before.1 + last.1)
    }
}

/// Whether the loop of some task is bound under the handle `h`.
pub open spec fn bound(tasks: Seq<TaskEntryView>, h: u64) -> bool {
    exists|j: int| 0 <= j < tasks.len() && (#[trigger] tasks[j]).handle == Some(h)
}

/// The least number from `from` on under which no loop is bound, looked for
/// up to the number of tasks.
pub open spec fn free_from(tasks: Seq<TaskEntryView>, from: nat) -> nat
    decreases tasks.len() - from,
{
    if from < tasks.len() && bound(tasks, from as u64) {
        free_from(tasks, from + 1)
    } else {
        from
    }
}

/// The handle that the next loop is bound under: the least one that is free.
pub open spec fn fresh_handle(tasks: Seq<TaskEntryView>) -> u64 {
    free_from(tasks, 0) as u64
}

/// Starting task `i`: a loop that is bound already is cancelled first; then a
/// fresh adapter is built from the configuration and a loop for it is
/// spawned under a handle that no loop is bound under. A task whose type
/// names no known kind is not started, which is logged. An index out of
/// range does nothing.
pub open spec fn started(pre: SupervisorView, i: usize) -> (SupervisorView, Seq<ActionView>) {
    if i >= pre.tasks.len() {
        (pre, Seq::empty())
    } else {
        let entry = pre.tasks[i as int];
        let cancel = match entry.handle {
            Some(h) => seq![ActionView::Cancel(h)],
            None => Seq::empty(),
        };
        match adapter_for(entry.config) {
            None => (
                with_entry(
                    pre,
                    i as int,
                    TaskEntryView { status: TaskStatusView::Idle, handle: None, ..entry },
                ),
                cancel + seq![
                    ActionView::Log(
                        "Unknown task type: "@ + entry.config.task_type,
                        LogColor::Red,
                    ),
                ],
            ),
            Some(adapter) => (
                with_entry(
                    pre,
                    i as int,
                    TaskEntryView {
                        status: TaskStatusView::Running,
                        handle: Some(fresh_handle(pre.tasks)),
                        ..entry
                    },
                ),
                cancel + seq![
                    ActionView::Spawn {
                        handle: fresh_handle(pre.tasks),
                        adapter,
                        poll_loop: fresh(
                            i,
                            interval_of(adapter),
                            notes_of(adapter),
                            pre.notifier is Some,
                        ),
                    },
                    ActionView::Log(
                        "Started task #"@ + task_number(i) + ": "@ + entry.config.name,
                        LogColor::Green,
                    ),
                ],
            ),
        }
    }
}

/// Adding a task: it comes last and is idle.
pub open spec fn added(pre: SupervisorView, config: TaskConfigView) -> (
    SupervisorView,
    Seq<ActionView>,
) {
    (
        SupervisorView {
            tasks: pre.tasks.push(
                TaskEntryView { config, status: TaskStatusView::Idle, handle: None },
            ),
            ..pre
        },
        seq![
            ActionView::Log("Added new task: "@ + config.name, LogColor::LightBlue),
            ActionView::SaveConfig,
        ],
    )
}

/// Giving task `i` another configuration: the task is stopped first, so that
/// no loop runs on a configuration it was not started with.
pub open spec fn updated(pre: SupervisorView, i: usize, config: TaskConfigView) -> (
    SupervisorView,
    Seq<ActionView>,
) {
    if i >= pre.tasks.len() {
        (pre, Seq::empty())
    } else {
        let halted = stopped(pre, i);
        (
            with_entry(halted.0, i as int, TaskEntryView { config, ..halted.0.tasks[i as int] }),
            halted.1 + seq![
                ActionView::Log(
                    "Updated task #"@ + task_number(i) + ": "@ + config.name,
                    LogColor::LightBlue,
                ),
                ActionView::SaveConfig,
            ],
        )
    }
}

/// Deleting task `i`: the task is stopped first; the tasks behind it move up
/// by one.
pub open spec fn deleted(pre: SupervisorView, i: usize) -> (SupervisorView, Seq<ActionView>) {
    if i >= pre.tasks.len() {
        (pre, Seq::empty())
    } else {
        let halted = stopped(pre, i);
        (
            SupervisorView { tasks: halted.0.tasks.remove(i as int), ..halted.0 },
            halted.1 + seq![
                ActionView::Log(
                    "Deleted task: "@ + pre.tasks[i as int].config.name,
                    LogColor::LightRed,
                ),
                ActionView::SaveConfig,
            ],
        )
    }
}

/// The notifier that a notification configuration asks for.
pub open spec fn notifier_for(n: NotificationConfigView) -> Option<Seq<Seq<char>>> {
    if n.enabled && n.server_chan_key.len() > 0 {
        Some(with_key(Seq::empty(), n.server_chan_key))
    } else {
        None
    }
}

/// Taking over a notification configuration.
pub open spec fn notification_updated(pre: SupervisorView, n: NotificationConfigView) -> (
    SupervisorView,
    Seq<ActionView>,
) {
    (
        SupervisorView { notification: n, notifier: notifier_for(n), ..pre },
        seq![
            if notifier_for(n) is Some {
                ActionView::Log(
                    "Updated ServerChan notification configuration"@,
                    LogColor::LightBlue,
                )
            } else {
                ActionView::Log("Disabled ServerChan notifications"@, LogColor::Yellow)
            },
            ActionView::SaveConfig,
        ],
    )
}

/// Taking note of a message of a running loop: a status that it reports
/// becomes the status of its task. Messages for a task without a bound loop
/// come from a loop that was cancelled and change nothing.
pub open spec fn received(pre: SupervisorView, m: MessageView) -> SupervisorView {
    match m {
        MessageView::TaskStatusChanged(i, status) => if i < pre.tasks.len()
            && pre.tasks[i as int].handle is Some {
            with_entry(pre, i as int, TaskEntryView { status, ..pre.tasks[i as int] })
        } else {
            pre
        },
        _ => pre,
    }
}

/// The entries of a list of configurations that was just loaded: all idle.
pub open spec fn idle_entries(tasks: Seq<TaskConfigView>) -> Seq<TaskEntryView> {
    Seq::new(
        tasks.len(),
        |i: int| TaskEntryView { config: tasks[i], status: TaskStatusView::Idle, handle: None },
    )
}

/// The notifier at start-up: the one for the configured key, else the one
/// for the key of the environment, else none.
pub open spec fn initial_notifier(n: NotificationConfigView, env_key: Option<Seq<char>>) -> Option<
    Seq<Seq<char>>,
> {
    if n.server_chan_key.len() > 0 {
        Some(with_key(Seq::empty(), n.server_chan_key))
    } else {
        match env_key {
            Some(k) => if k.len() > 0 {
                Some(with_key(Seq::empty(), k))
            } else {
                None
            },
            None => None,
        }
    }
}

/// The supervisor at start-up.
pub open spec fn initial(configs: ConfigsView, env_key: Option<Seq<char>>) -> SupervisorView {
    SupervisorView {
        tasks: idle_entries(configs.tasks),
        notification: configs.notification,
        notifier: initial_notifier(configs.notification, env_key),
    }
}

/// The configurations of a list of entries.
pub open spec fn configs_of(entries: Seq<TaskEntryView>) -> Seq<TaskConfigView> {
    Seq::new(entries.len(), |i: int| entries[i].config)
}

fn notes_or<'a>(given: &'a str, fallback: &'a str) -> (r: &'a str)
    ensures
        r@ == effective_notes(given@, fallback@),
{
    if crate::text::is_blank(given) {
        fallback
    } else {
        given
    }
}

/// Builds the fresh adapter for a task.
pub fn build_adapter(config: &TaskConfig) -> (r: Result<SourceAdapter, ConfigurationError>)
    ensures
        match r {
            Ok(adapter) => adapter_for(config@) == Some(adapter@),
            Err(ConfigurationError::UnknownKind(t)) => adapter_for(config@) is None && t@
                == config@.task_type,
        },
{
    match TaskType::of_task(config.task_type.as_str()) {
        Some(TaskType::Static) => Ok(
            SourceAdapter::WebPage(
                StaticMonitor::new_with_notes(
                    config.url.as_str(),
                    config.selector.as_str(),
                    config.interval_secs,
                    config.notes.as_str(),
                ),
            ),
        ),
        Some(TaskType::Api) => Ok(
            SourceAdapter::ApiJson(
                ApiMonitor::new_with_notes(
                    config.url.clone(),
                    config.selector.clone(),
                    config.interval_secs,
                    config.notes.as_str(),
                ),
            ),
        ),
        Some(TaskType::Hyperliquid) => Ok(
            SourceAdapter::ExchangeAccount(
                HyperliquidMonitor::new_with_notes(
                    config.address.as_str(),
                    config.interval_secs,
                    config.monitor_spot,
                    config.monitor_contract,
                    config.notes.as_str(),
                ),
            ),
        ),
        None => Err(ConfigurationError::UnknownKind(config.task_type.clone())),
    }
}

impl TaskSupervisor {
    /// The supervisor for a configuration that was just loaded: every task is
    /// idle. `env_key` is the notification key of the environment, which
    /// serves where the configuration has none.
    pub fn new(configs: Configs, env_key: Option<String>) -> (r: (Self, Vec<SupervisorAction>))
        ensures
            r.0@ == initial(configs@, crate::text::opt_text(env_key)),
            actions_view(r.1@) == seq![
                ActionView::Log("Hyperliquid Monitoring System Started"@, LogColor::Green),
                ActionView::Log("Version: 0.1.0"@, LogColor::White),
            ],
    {
        let n = configs.tasks.len();
        let mut tasks: Vec<TaskEntry> = Vec::new();
        let mut i: usize = 0;
        while i < n
            invariant
                i <= n == configs.tasks@.len(),
                entries_view(tasks@) == idle_entries(tasks_view(configs.tasks@)).take(i as int),
            decreases n - i,
        {
            let ghost before = entries_view(tasks@);
            let entry = TaskEntry {
                config: configs.tasks[i].duplicate(),
                status: TaskStatus::Idle,
                handle: None,
            };
            tasks.push(entry);
            assert(entries_view(tasks@) =~= before.push(entry@));
            assert(entries_view(tasks@) =~= idle_entries(tasks_view(configs.tasks@)).take(i + 1));
            i += 1;
        }
        assert(idle_entries(tasks_view(configs.tasks@)).take(n as int) =~= idle_entries(
            tasks_view(configs.tasks@),
        ));
        let notifier = if !configs.notification.server_chan_key.as_str().is_empty() {
            Some(ServerChanNotifier::new(configs.notification.server_chan_key.as_str()))
        } else {
            match &env_key {
                Some(k) => if !k.as_str().is_empty() {
                    Some(ServerChanNotifier::new(k.as_str()))
                } else {
                    None
                },
                None => None,
            }
        };
        let mut actions: Vec<SupervisorAction> = Vec::new();
        actions.push(
            SupervisorAction::Log(
                String::from_str("Hyperliquid Monitoring System Started"),
                LogColor::Green,
            ),
        );
        actions.push(SupervisorAction::Log(String::from_str("Version: 0.1.0"), LogColor::White));
        assert(actions_view(actions@) =~= seq![
            ActionView::Log("Hyperliquid Monitoring System Started"@, LogColor::Green),
            ActionView::Log("Version: 0.1.0"@, LogColor::White),
        ]);
        (
            TaskSupervisor { tasks, notification: configs.notification, notifier },
            actions,
        )
    }

    /// How many tasks there are.
    pub fn task_count(&self) -> (r: usize)
        ensures
            r == self@.tasks.len(),
    {
        self.tasks.len()
    }

    /// The status of task `i`.
    pub fn status(&self, task_index: usize) -> (r: Option<TaskStatus>)
        ensures
            match r {
                Some(status) => task_index < self@.tasks.len() && status@
                    == self@.tasks[task_index as int].status,
                None => task_index >= self@.tasks.len(),
            },
    {
        if task_index < self.tasks.len() {
            Some(self.tasks[task_index].status.duplicate())
        } else {
            None
        }
    }

    /// The handle of the loop that is bound to task `i`.
    pub fn handle(&self, task_index: usize) -> (r: Option<u64>)
        ensures
            r == if task_index < self@.tasks.len() {
                self@.tasks[task_index as int].handle
            } else {
                None
            },
    {
        if task_index < self.tasks.len() {
            self.tasks[task_index].handle
        } else {
            None
        }
    }

    /// The notifier, where notifications are switched on.
    pub fn notifier(&self) -> (r: Option<ServerChanNotifier>)
        ensures
            match r {
                Some(n) => self@.notifier == Some(n@),
                None => self@.notifier is None,
            },
    {
        match &self.notifier {
            Some(n) => {
                let keys = n.get_keys();
                let copy = ServerChanNotifier::new_with_keys(keys.as_slice());
                proof {
                    lemma_with_keys_of_a_set(n@);
                }
                Some(copy)
            },
            None => None,
        }
    }

    /// The configuration as it is to be saved.
    pub fn configs(&self) -> (r: Configs)
        ensures
            r@ == (ConfigsView {
                notification: self@.notification,
                tasks: configs_of(self@.tasks),
            }),
    {
        let n = self.tasks.len();
        let mut tasks: Vec<TaskConfig> = Vec::new();
        let mut i: usize = 0;
        while i < n
            invariant
                i <= n == self.tasks@.len(),
                tasks_view(tasks@) == configs_of(entries_view(self.tasks@)).take(i as int),
            decreases n - i,
        {
            let ghost before = tasks_view(tasks@);
            let c = self.tasks[i].config.duplicate();
            tasks.push(c);
            assert(tasks_view(tasks@) =~= before.push(c@));
            assert(tasks_view(tasks@) =~= configs_of(entries_view(self.tasks@)).take(i + 1));
            i += 1;
        }
        assert(configs_of(entries_view(self.tasks@)).take(n as int) =~= configs_of(
            entries_view(self.tasks@),
        ));
        Configs {
            notification: NotificationConfig {
                enabled: self.notification.enabled,
                server_chan_key: self.notification.server_chan_key.clone(),
            },
            tasks,
        }
    }

    fn is_bound(&self, h: u64) -> (r: bool)
        ensures
            r == bound(self@.tasks, h),
    {
        let n = self.tasks.len();
        let mut j: usize = 0;
        while j < n
            invariant
                j <= n == self.tasks@.len(),
                forall|k: int| 0 <= k < j ==> (#[trigger] self@.tasks[k]).handle != Some(h),
            decreases n - j,
        {
            match self.tasks[j].handle {
                Some(other) => {
                    if other == h {
                        assert(self@.tasks[j as int].handle == Some(h));
                        return true;
                    }
                },
                None => {},
            }
            assert(self@.tasks[j as int].handle != Some(h));
            j += 1;
        }
        false
    }

    fn free_handle(&self) -> (r: u64)
        ensures
            r == fresh_handle(self@.tasks),
    {
        let n = self.tasks.len();
        let mut candidate: usize = 0;
        while candidate < n && self.is_bound(candidate as u64)
            invariant
                candidate <= n == self@.tasks.len(),
                free_from(self@.tasks, 0) == free_from(self@.tasks, candidate as nat),
            decreases n - candidate,
        {
            candidate += 1;
        }
        candidate as u64
    }

    fn set_entry(&mut self, i: usize, status: TaskStatus, handle: Option<u64>)
        requires
            i < old(self)@.tasks.len(),
        ensures
            final(self)@ == with_entry(
                old(self)@,
                i as int,
                TaskEntryView { status: status@, handle, ..old(self)@.tasks[i as int] },
            ),
    {
        let config = self.tasks[i].config.duplicate();
        let ghost before = entries_view(self.tasks@);
        let entry = TaskEntry { config, status, handle };
        self.tasks.set(i, entry);
        assert(entries_view(self.tasks@) =~= before.update(i as int, entry@));
    }

    fn stop_into(&mut self, task_index: usize, actions: &mut Vec<SupervisorAction>)
        ensures
            final(self)@ == stopped(old(self)@, task_index).0,
            actions_view(final(actions)@) == actions_view(old(actions)@) + stopped(
                old(self)@,
                task_index,
            ).1,
    {
        let ghost before = actions_view(actions@);
        if task_index < self.tasks.len() {
            if let Some(h) = self.tasks[task_index].handle {
                let mut text = String::from_str("Stopped task #");
                push_task_number(&mut text, task_index);
                text.append(": ");
                text.append(self.tasks[task_index].config.name.as_str());
                actions.push(SupervisorAction::Cancel(h));
                actions.push(SupervisorAction::Log(text, LogColor::Yellow));
                self.set_entry(task_index, TaskStatus::Idle, None);
                assert(actions_view(actions@) =~= before + stopped(old(self)@, task_index).1);
                return ;
            }
        }
        assert(actions_view(actions@) =~= before + stopped(old(self)@, task_index).1);
    }

    /// Start monitoring task
    pub fn start_task(&mut self, task_index: usize) -> (r: Vec<SupervisorAction>)
        ensures
            final(self)@ == started(old(self)@, task_index).0,
            actions_view(r@) == started(old(self)@, task_index).1,
    {
        let mut actions: Vec<SupervisorAction> = Vec::new();
        assert(actions_view(actions@) =~= Seq::<ActionView>::empty());
        if task_index >= self.tasks.len() {
            return actions;
        }
        if let Some(h) = self.tasks[task_index].handle {
            actions.push(SupervisorAction::Cancel(h));
        }
        let ghost cancel = actions_view(actions@);
        assert(cancel =~= match old(self)@.tasks[task_index as int].handle {
            Some(h) => seq![ActionView::Cancel(h)],
            None => Seq::empty(),
        });
        match build_adapter(&self.tasks[task_index].config) {
            Err(e) => {
                actions.push(SupervisorAction::Log(e.to_text(), LogColor::Red));
                self.set_entry(task_index, TaskStatus::Idle, None);
                assert(actions_view(actions@) =~= started(old(self)@, task_index).1);
            },
            Ok(adapter) => {
                let handle = self.free_handle();
                let poll_loop = PollLoop::new(
                    task_index,
                    adapter.interval(),
                    adapter.get_notes().as_str(),
                    self.notifier.is_some(),
                );
                let mut text = String::from_str("Started task #");
                push_task_number(&mut text, task_index);
                text.append(": ");
                text.append(self.tasks[task_index].config.name.as_str());
                actions.push(SupervisorAction::Spawn { handle, adapter, poll_loop });
                actions.push(SupervisorAction::Log(text, LogColor::Green));
                self.set_entry(task_index, TaskStatus::Running, Some(handle));
                assert(actions_view(actions@) =~= started(old(self)@, task_index).1);
            },
        }
        actions
    }

    /// Stop monitoring task
    pub fn stop_task(&mut self, task_index: usize) -> (r: Vec<SupervisorAction>)
        ensures
            final(self)@ == stopped(old(self)@, task_index).0,
            actions_view(r@) == stopped(old(self)@, task_index).1,
    {
        let mut actions: Vec<SupervisorAction> = Vec::new();
        assert(actions_view(actions@) =~= Seq::<ActionView>::empty());
        self.stop_into(task_index, &mut actions);
        assert(actions_view(actions@) =~= stopped(old(self)@, task_index).1);
        actions
    }

    /// Stop all tasks
    pub fn stop_all_tasks(&mut self) -> (r: Vec<SupervisorAction>)
        ensures
            final(self)@ == stopped_upto(old(self)@, old(self)@.tasks.len() as usize).0,
            actions_view(r@) == stopped_upto(old(self)@, old(self)@.tasks.len() as usize).1,
    {
        let mut actions: Vec<SupervisorAction> = Vec::new();
        assert(actions_view(actions@) =~= Seq::<ActionView>::empty());
        let n = self.tasks.len();
        let mut i: usize = 0;
        while i < n
            invariant
                i <= n == old(self)@.tasks.len(),
                self@ == stopped_upto(old(self)@, i).0,
                actions_view(actions@) == stopped_upto(old(self)@, i).1,
            decreases n - i,
        {
            self.stop_into(i, &mut actions);
            i += 1;
        }
        actions
    }

    /// Add new task
    pub fn add_task(&mut self, config: TaskConfig) -> (r: Vec<SupervisorAction>)
        ensures
            final(self)@ == added(old(self)@, config@).0,
            actions_view(r@) == added(old(self)@, config@).1,
    {
        let mut text = String::from_str("Added new task: ");
        text.append(config.name.as_str());
        let ghost before = entries_view(self.tasks@);
        let entry = TaskEntry { config, status: TaskStatus::Idle, handle: None };
        self.tasks.push(entry);
        assert(entries_view(self.tasks@) =~= before.push(entry@));
        let mut actions: Vec<SupervisorAction> = Vec::new();
        actions.push(SupervisorAction::Log(text, LogColor::LightBlue));
        actions.push(SupervisorAction::SaveConfig);
        assert(actions_view(actions@) =~= added(old(self)@, config@).1);
        actions
    }

    /// Update task
    pub fn update_task(&mut self, task_index: usize, config: TaskConfig) -> (r: Vec<
        SupervisorAction,
    >)
        ensures
            final(self)@ == updated(old(self)@, task_index, config@).0,
            actions_view(r@) == updated(old(self)@, task_index, config@).1,
    {
        let mut actions: Vec<SupervisorAction> = Vec::new();
        assert(actions_view(actions@) =~= Seq::<ActionView>::empty());
        if task_index >= self.tasks.len() {
            return actions;
        }
        self.stop_into(task_index, &mut actions);
        assert(self.tasks@.len() == self@.tasks.len());
        let mut text = String::from_str("Updated task #");
        push_task_number(&mut text, task_index);
        text.append(": ");
        text.append(config.name.as_str());
        let ghost before = entries_view(self.tasks@);
        let entry = TaskEntry {
            config,
            status: self.tasks[task_index].status.duplicate(),
            handle: self.tasks[task_index].handle,
        };
        self.tasks.set(task_index, entry);
        assert(entries_view(self.tasks@) =~= before.update(task_index as int, entry@));
        let ghost halted = actions_view(actions@);
        actions.push(SupervisorAction::Log(text, LogColor::LightBlue));
        actions.push(SupervisorAction::SaveConfig);
        assert(actions_view(actions@) =~= updated(old(self)@, task_index, config@).1);
        actions
    }

    /// Delete task; says whether there was one to delete.
    pub fn delete_task(&mut self, task_index: usize) -> (r: (bool, Vec<SupervisorAction>))
        ensures
            r.0 == (task_index < old(self)@.tasks.len()),
            final(self)@ == deleted(old(self)@, task_index).0,
            actions_view(r.1@) == deleted(old(self)@, task_index).1,
    {
        let mut actions: Vec<SupervisorAction> = Vec::new();
        assert(actions_view(actions@) =~= Seq::<ActionView>::empty());
        if task_index >= self.tasks.len() {
            return (false, actions);
        }
        self.stop_into(task_index, &mut actions);
        assert(self.tasks@.len() == self@.tasks.len());
        assert(self@.tasks[task_index as int].config == old(self)@.tasks[task_index as int].config);
        assert(self@.tasks[task_index as int] == self.tasks@[task_index as int]@);
        let ghost halted = actions_view(actions@);
        let mut text = String::from_str("Deleted task: ");
        text.append(self.tasks[task_index].config.name.as_str());
        let ghost before = entries_view(self.tasks@);
        let _ = self.tasks.remove(task_index);
        assert(entries_view(self.tasks@) =~= before.remove(task_index as int));
        actions.push(SupervisorAction::Log(text, LogColor::LightRed));
        actions.push(SupervisorAction::SaveConfig);
        assert(actions_view(actions@) =~= halted + seq![
            ActionView::Log(text@, LogColor::LightRed),
            ActionView::SaveConfig,
        ]);
        assert(actions_view(actions@) =~= deleted(old(self)@, task_index).1);
        (true, actions)
    }

    /// Update notification settings
    pub fn update_notification_config(&mut self, notification: NotificationConfig) -> (r: Vec<
        SupervisorAction,
    >)
        ensures
            final(self)@ == notification_updated(old(self)@, notification@).0,
            actions_view(r@) == notification_updated(old(self)@, notification@).1,
    {
        let mut actions: Vec<SupervisorAction> = Vec::new();
        if notification.enabled && !notification.server_chan_key.as_str().is_empty() {
            self.notifier = Some(ServerChanNotifier::new(notification.server_chan_key.as_str()));
            actions.push(
                SupervisorAction::Log(
                    String::from_str("Updated ServerChan notification configuration"),
                    LogColor::LightBlue,
                ),
            );
        } else {
            self.notifier = None;
            actions.push(
                SupervisorAction::Log(
                    String::from_str("Disabled ServerChan notifications"),
                    LogColor::Yellow,
                ),
            );
        }
        self.notification = notification;
        actions.push(SupervisorAction::SaveConfig);
        assert(actions_view(actions@) =~= notification_updated(old(self)@, notification@).1);
        actions
    }

    /// Takes note of a message of a running loop.
    pub fn receive(&mut self, message: &Message)
        ensures
            final(self)@ == received(old(self)@, message@),
    {
        match message {
            Message::TaskStatusChanged(i, status) => {
                if *i < self.tasks.len() && self.tasks[*i].handle.is_some() {
                    let handle = self.tasks[*i].handle;
                    self.set_entry(*i, status.duplicate(), handle);
                }
            },
            _ => {},
        }
    }
}

/// Stopping a task to which no loop is bound, or an index out of range, is a
/// no-op: the supervisor stays as it is, the status included, and nothing is
/// to be done.
pub proof fn law_stop_without_loop_is_a_no_op(pre: SupervisorView, i: usize)
    requires
        i >= pre.tasks.len() || pre.tasks[i as int].handle is None,
    ensures
        stopped(pre, i) == (pre, Seq::<ActionView>::empty()),
{
}

/// Deleting task `i` and then starting task `i` starts the task that moved
/// up into its place, or does nothing where no task moved up. A task whose
/// type names no known kind is left idle.
pub proof fn law_delete_then_start(pre: SupervisorView, i: usize)
    ensures
        i + 1 >= pre.tasks.len() ==> started(deleted(pre, i).0, i) == (
            deleted(pre, i).0,
            Seq::<ActionView>::empty(),
        ),
        i + 1 < pre.tasks.len() ==> {
            let shrunk = deleted(pre, i).0;
            let moved = pre.tasks[i + 1];
            &&& shrunk.tasks[i as int] == moved
            &&& started(shrunk, i).0.tasks.len() == shrunk.tasks.len()
            &&& started(shrunk, i).0.tasks[i as int].config == moved.config
            &&& adapter_for(moved.config) matches Some(adapter) ==> {
                &&& started(shrunk, i).0.tasks[i as int].status == TaskStatusView::Running
                &&& started(shrunk, i).0.tasks[i as int].handle is Some
                &&& started(shrunk, i).1.contains(
                    ActionView::Spawn {
                        handle: fresh_handle(shrunk.tasks),
                        adapter,
                        poll_loop: fresh(
                            i,
                            interval_of(adapter),
                            notes_of(adapter),
                            shrunk.notifier is Some,
                        ),
                    },
                )
            }
            &&& adapter_for(moved.config) is None ==> started(shrunk, i).0.tasks[i as int].status
                == TaskStatusView::Idle
        },
{
    if i + 1 < pre.tasks.len() {
        let shrunk = deleted(pre, i).0;
        let moved = pre.tasks[i + 1];
        assert(shrunk.tasks[i as int] == moved);
        let result = started(shrunk, i);
        match adapter_for(moved.config) {
            Some(adapter) => {
                let spawn = ActionView::Spawn {
                    handle: fresh_handle(shrunk.tasks),
                    adapter,
                    poll_loop: fresh(
                        i,
                        interval_of(adapter),
                        notes_of(adapter),
                        shrunk.notifier is Some,
                    ),
                };
                let at = result.1.len() - 2;
                assert(result.1[at] == spawn);
            },
            None => {},
        }
    }
}

/// An index out of range is a no-op for every operation that takes one.
pub proof fn law_out_of_range_is_a_no_op(pre: SupervisorView, i: usize, config: TaskConfigView)
    requires
        i >= pre.tasks.len(),
    ensures
        started(pre, i) == (pre, Seq::<ActionView>::empty()),
        stopped(pre, i) == (pre, Seq::<ActionView>::empty()),
        updated(pre, i, config) == (pre, Seq::<ActionView>::empty()),
        deleted(pre, i) == (pre, Seq::<ActionView>::empty()),
{
}

/// The number of tasks changes only where a task is added or deleted.
pub proof fn law_task_count(pre: SupervisorView, i: usize, config: TaskConfigView, m: MessageView)
    ensures
        started(pre, i).0.tasks.len() == pre.tasks.len(),
        stopped(pre, i).0.tasks.len() == pre.tasks.len(),
        updated(pre, i, config).0.tasks.len() == pre.tasks.len(),
        received(pre, m).tasks.len() == pre.tasks.len(),
        added(pre, config).0.tasks.len() == pre.tasks.len() + 1,
        deleted(pre, i).0.tasks.len() == if i < pre.tasks.len() {
            pre.tasks.len() - 1
        } else {
            pre.tasks.len() as int
        },
{
}

/// A supervisor is at rest where every task without a bound loop is idle.
pub open spec fn at_rest(s: SupervisorView) -> bool {
    forall|j: int|
        0 <= j < s.tasks.len() && (#[trigger] s.tasks[j]).handle is None ==> s.tasks[j].status
            == TaskStatusView::Idle
}

/// A task without a bound loop is idle: this holds at start-up and after
/// every operation.
pub proof fn law_unbound_tasks_are_idle(
    pre: SupervisorView,
    i: usize,
    config: TaskConfigView,
    m: MessageView,
    configs: ConfigsView,
    env_key: Option<Seq<char>>,
    n: NotificationConfigView,
)
    requires
        at_rest(pre),
    ensures
        at_rest(initial(configs, env_key)),
        at_rest(started(pre, i).0),
        at_rest(stopped(pre, i).0),
        at_rest(added(pre, config).0),
        at_rest(updated(pre, i, config).0),
        at_rest(deleted(pre, i).0),
        at_rest(received(pre, m)),
        at_rest(notification_updated(pre, n).0),
{
    assert(at_rest(stopped(pre, i).0));
    if i < pre.tasks.len() {
        let halted = stopped(pre, i).0;
        let shrunk = deleted(pre, i).0;
        assert forall|j: int|
            0 <= j < shrunk.tasks.len() && (#[trigger] shrunk.tasks[j]).handle is None implies shrunk.tasks[j].status
            == TaskStatusView::Idle by {
            if j < i {
                assert(shrunk.tasks[j] == halted.tasks[j]);
            } else {
                assert(shrunk.tasks[j] == halted.tasks[j + 1]);
            }
        }
    }
}

proof fn lemma_stopped_upto(pre: SupervisorView, n: usize)
    requires
        n <= pre.tasks.len(),
    ensures
        stopped_upto(pre, n).0.tasks.len() == pre.tasks.len(),
        forall|j: int|
            0 <= j < n ==> (#[trigger] stopped_upto(pre, n).0.tasks[j]).handle is None,
        forall|j: int|
            0 <= j < n && pre.tasks[j].handle is Some ==> (#[trigger] stopped_upto(
                pre,
                n,
            ).0.tasks[j]).status == TaskStatusView::Idle,
        forall|j: int|
            0 <= j < pre.tasks.len() ==> (#[trigger] stopped_upto(pre, n).0.tasks[j]).config
                == pre.tasks[j].config,
        forall|j: int|
            0 <= j < pre.tasks.len() && pre.tasks[j].handle is None ==> (#[trigger] stopped_upto(
                pre,
                n,
            ).0.tasks[j]) == pre.tasks[j],
        forall|j: int|
            n <= j < pre.tasks.len() ==> (#[trigger] stopped_upto(pre, n).0.tasks[j])
                == pre.tasks[j],
    decreases n,
{
    if n > 0 {
        lemma_stopped_upto(pre, (n - 1) as usize);
    }
}

/// After all tasks were stopped no loop is bound to any task, every task
/// that had one is idle, and the configurations are as they were.
pub proof fn law_stop_all_leaves_no_loop(pre: SupervisorView)
    requires
        pre.tasks.len() <= usize::MAX,
    ensures
        ({
            let post = stopped_upto(pre, pre.tasks.len() as usize).0;
            &&& post.tasks.len() == pre.tasks.len()
            &&& forall|j: int|
                0 <= j < pre.tasks.len() ==> {
                    &&& (#[trigger] post.tasks[j]).handle is None
                    &&& post.tasks[j].config == pre.tasks[j].config
                    &&& pre.tasks[j].handle is Some ==> post.tasks[j].status == TaskStatusView::Idle
                    &&& pre.tasks[j].handle is None ==> post.tasks[j].status == pre.tasks[j].status
                }
        }),
{
    lemma_stopped_upto(pre, pre.tasks.len() as usize);
}

/// No two tasks are bound to the same handle.
pub open spec fn handles_differ(s: SupervisorView) -> bool {
    forall|j: int, k: int|
        0 <= j < k < s.tasks.len() && (#[trigger] s.tasks[j]).handle is Some && (
        #[trigger] s.tasks[k]).handle is Some ==> s.tasks[j].handle != s.tasks[k].handle
}

proof fn lemma_free_from(tasks: Seq<TaskEntryView>, from: nat)
    requires
        from <= tasks.len(),
    ensures
        from <= free_from(tasks, from) <= tasks.len(),
        forall|h: u64| from <= h < free_from(tasks, from) ==> #[trigger] bound(tasks, h),
        free_from(tasks, from) < tasks.len() ==> !bound(tasks, free_from(tasks, from) as u64),
    decreases tasks.len() - from,
{
    if from < tasks.len() && bound(tasks, from as u64) {
        lemma_free_from(tasks, from + 1);
    }
}

/// Among the numbers up to the number of tasks, one is the handle of no
/// loop: there is one number more than there are tasks.
proof fn lemma_some_handle_is_free(tasks: Seq<TaskEntryView>)
    requires
        tasks.len() <= u64::MAX,
    ensures
        exists|h: u64| h <= tasks.len() && !(#[trigger] bound(tasks, h)),
{
    if forall|h: u64| h <= tasks.len() ==> #[trigger] bound(tasks, h) {
        let handles = Seq::new(
            tasks.len(),
            |j: int|
                match tasks[j].handle {
                    Some(h) => h as int,
                    None => -1,
                },
        );
        let all = set_int_range(0, tasks.len() as int + 1);
        assert forall|k: int| all.contains(k) implies handles.to_set().contains(k) by {
            assert(bound(tasks, k as u64));
            let j = choose|j: int|
                0 <= j < tasks.len() && (#[trigger] tasks[j]).handle == Some(k as u64);
            assert(handles[j] == k);
        }
        seq_to_set_is_finite(handles);
        lemma_len_subset(all, handles.to_set());
        lemma_int_range(0, tasks.len() as int + 1);
        handles.lemma_cardinality_of_set();
        assert(all.len() == tasks.len() + 1);
        assert(handles.to_set().len() <= tasks.len());
    }
}

/// The handle that the next loop is bound under is bound to no task.
pub proof fn lemma_fresh_handle_is_free(tasks: Seq<TaskEntryView>)
    requires
        tasks.len() <= u64::MAX,
    ensures
        !bound(tasks, fresh_handle(tasks)),
{
    lemma_free_from(tasks, 0);
    lemma_some_handle_is_free(tasks);
}

/// No handle is ever shared: at start-up and after every operation, the
/// loops of two tasks have different handles, so that cancelling one task
/// never cancels the loop of another.
pub proof fn law_handles_are_never_shared(
    pre: SupervisorView,
    i: usize,
    config: TaskConfigView,
    m: MessageView,
    configs: ConfigsView,
    env_key: Option<Seq<char>>,
    n: NotificationConfigView,
)
    requires
        pre.tasks.len() <= usize::MAX,
        handles_differ(pre),
    ensures
        handles_differ(initial(configs, env_key)),
        handles_differ(started(pre, i).0),
        handles_differ(stopped(pre, i).0),
        handles_differ(added(pre, config).0),
        handles_differ(updated(pre, i, config).0),
        handles_differ(deleted(pre, i).0),
        handles_differ(received(pre, m)),
        handles_differ(notification_updated(pre, n).0),
{
    assert(handles_differ(stopped(pre, i).0));
    lemma_fresh_handle_is_free(pre.tasks);
    if i < pre.tasks.len() {
        let begun = started(pre, i).0;
        assert forall|j: int, k: int|
            0 <= j < k < begun.tasks.len() && (#[trigger] begun.tasks[j]).handle is Some && (
            #[trigger] begun.tasks[k]).handle is Some implies begun.tasks[j].handle
            != begun.tasks[k].handle by {
            if j != i {
                assert(begun.tasks[j] == pre.tasks[j]);
            }
            if k != i {
                assert(begun.tasks[k] == pre.tasks[k]);
            }
        }
        let halted = stopped(pre, i).0;
        let shrunk = deleted(pre, i).0;
        assert forall|j: int, k: int|
            0 <= j < k < shrunk.tasks.len() && (#[trigger] shrunk.tasks[j]).handle is Some && (
            #[trigger] shrunk.tasks[k]).handle is Some implies shrunk.tasks[j].handle
            != shrunk.tasks[k].handle by {
            let a = if j < i {
                j
            } else {
                j + 1
            };
            let b = if k < i {
                k
            } else {
                k + 1
            };
            assert(shrunk.tasks[j] == halted.tasks[a]);
            assert(shrunk.tasks[k] == halted.tasks[b]);
        }
    }
}

} // verus!
