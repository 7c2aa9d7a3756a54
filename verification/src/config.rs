//! What the operator configures: the tasks and the notification settings.

use crate::text::same_text;
use vstd::prelude::*;
use vstd::string::*;

verus! {

/// Monitoring task status
#[derive(Debug, PartialEq, Eq, Clone)]
pub enum TaskStatus {
    Idle,
    Running,
    /// The last check failed; the text says why.
    Error(String),
}

/// What a `TaskStatus` holds.
pub enum TaskStatusView {
    Idle,
    Running,
    Error(Seq<char>),
}

impl View for TaskStatus {
    type V = TaskStatusView;

    open spec fn view(&self) -> TaskStatusView {
        match self {
            TaskStatus::Idle => TaskStatusView::Idle,
            TaskStatus::Running => TaskStatusView::Running,
            TaskStatus::Error(reason) => TaskStatusView::Error(reason@),
        }
    }
}

/// A status in words: an error with its reason.
pub open spec fn status_text(s: TaskStatusView) -> Seq<char> {
    match s {
        TaskStatusView::Idle => "Idle"@,
        TaskStatusView::Running => "Running"@,
        TaskStatusView::Error(reason) => "Error: "@ + reason,
    }
}

impl TaskStatus {
    /// The status in words.
    pub fn to_text(&self) -> (r: String)
        ensures
            r@ == status_text(self@),
    {
        match self {
            TaskStatus::Idle => String::from_str("Idle"),
            TaskStatus::Running => String::from_str("Running"),
            TaskStatus::Error(reason) => {
                let mut s = String::from_str("Error: ");
                s.append(reason.as_str());
                s
            },
        }
    }

    /// A copy of the status.
    pub fn duplicate(&self) -> (r: Self)
        ensures
            r@ == self@,
    {
        match self {
            TaskStatus::Idle => TaskStatus::Idle,
            TaskStatus::Running => TaskStatus::Running,
            TaskStatus::Error(reason) => TaskStatus::Error(reason.clone()),
        }
    }
}

/// Monitoring task type
#[derive(Debug, PartialEq, Eq, Clone, Copy, Structural)]
pub enum TaskType {
    Static,
    Hyperliquid,
    Api,
}

/// The name under which a task type is shown.
pub open spec fn type_text(t: TaskType) -> Seq<char> {
    match t {
        TaskType::Static => "Static Web"@,
        TaskType::Hyperliquid => "Hyperliquid"@,
        TaskType::Api => "API Monitor"@,
    }
}

/// The task type that is shown under `s`.
pub open spec fn type_named(s: Seq<char>) -> Option<TaskType> {
    if s == "Static Web"@ {
        Some(TaskType::Static)
    } else if s == "Hyperliquid"@ {
        Some(TaskType::Hyperliquid)
    } else if s == "API Monitor"@ {
        Some(TaskType::Api)
    } else {
        None
    }
}

/// The kind of source that the type of a task stands for: the name under
/// which a type is shown, or its short form.
pub open spec fn source_kind(task_type: Seq<char>) -> Option<TaskType> {
    if task_type == "Static"@ {
        Some(TaskType::Static)
    } else if task_type == "Api"@ {
        Some(TaskType::Api)
    } else {
        type_named(task_type)
    }
}

impl TaskType {
    /// The name under which the type is shown.
    pub fn to_text(&self) -> (r: String)
        ensures
            r@ == type_text(*self),
    {
        match self {
            TaskType::Static => String::from_str("Static Web"),
            TaskType::Hyperliquid => String::from_str("Hyperliquid"),
            TaskType::Api => String::from_str("API Monitor"),
        }
    }

    /// The type that is shown under `s`.
    pub fn from_str(s: &str) -> (r: Option<Self>)
        ensures
            r == type_named(s@),
    {
        if same_text(s, "Static Web") {
            Some(TaskType::Static)
        } else if same_text(s, "Hyperliquid") {
            Some(TaskType::Hyperliquid)
        } else if same_text(s, "API Monitor") {
            Some(TaskType::Api)
        } else {
            None
        }
    }

    /// The kind of source that the type of a task stands for.
    pub fn of_task(task_type: &str) -> (r: Option<Self>)
        ensures
            r == source_kind(task_type@),
    {
        if same_text(task_type, "Static") {
            Some(TaskType::Static)
        } else if same_text(task_type, "Api") {
            Some(TaskType::Api)
        } else {
            Self::from_str(task_type)
        }
    }
}

/// Every type is found again under the name it is shown under.
pub proof fn law_type_names_round_trip(t: TaskType)
    ensures
        type_named(type_text(t)) == Some(t),
        source_kind(type_text(t)) == Some(t),
{
    reveal_strlit("Static Web");
    reveal_strlit("Hyperliquid");
    reveal_strlit("API Monitor");
    reveal_strlit("Static");
    reveal_strlit("Api");
    assert("Static Web"@.len() == 10);
    assert("Hyperliquid"@.len() == 11);
    assert("API Monitor"@.len() == 11);
    assert("Static"@.len() == 6);
    assert("Api"@.len() == 3);
    assert("Hyperliquid"@[0] == 'H');
    assert("API Monitor"@[0] == 'A');
}

/// Monitoring task configuration
#[derive(Debug, Clone)]
pub struct TaskConfig {
    /// Task name
    pub name: String,
    /// Task type
    pub task_type: String,
    /// Target URL to monitor
    pub url: String,
    /// Selector (for static web page monitoring and API)
    pub selector: String,
    /// Wallet address (for Hyperliquid monitoring)
    pub address: String,
    /// Whether to monitor spot trading (for Hyperliquid monitoring)
    pub monitor_spot: bool,
    /// Whether to monitor contract trading (for Hyperliquid monitoring)
    pub monitor_contract: bool,
    /// Monitoring interval (seconds)
    pub interval_secs: u64,
    /// Whether it's enabled
    pub enabled: bool,
    /// Notes for the task
    pub notes: String,
}

/// What a `TaskConfig` holds.
pub struct TaskConfigView {
    pub name: Seq<char>,
    pub task_type: Seq<char>,
    pub url: Seq<char>,
    pub selector: Seq<char>,
    pub address: Seq<char>,
    pub monitor_spot: bool,
    pub monitor_contract: bool,
    pub interval_secs: u64,
    pub enabled: bool,
    pub notes: Seq<char>,
}

impl View for TaskConfig {
    type V = TaskConfigView;

    open spec fn view(&self) -> TaskConfigView {
        TaskConfigView {
            name: self.name@,
            task_type: self.task_type@,
            url: self.url@,
            selector: self.selector@,
            address: self.address@,
            monitor_spot: self.monitor_spot,
            monitor_contract: self.monitor_contract,
            interval_secs: self.interval_secs,
            enabled: self.enabled,
            notes: self.notes@,
        }
    }
}

/// The task that a new form starts from.
pub open spec fn default_task() -> TaskConfigView {
    TaskConfigView {
        name: "New Task"@,
        task_type: "Static Web"@,
        url: "https://example.com"@,
        selector: ""@,
        address: ""@,
        monitor_spot: true,
        monitor_contract: false,
        interval_secs: 60,
        enabled: true,
        notes: Seq::empty(),
    }
}

impl Default for TaskConfig {
    fn default() -> (r: Self)
        ensures
            r@ == default_task(),
    {
        TaskConfig {
            name: String::from_str("New Task"),
            task_type: String::from_str("Static Web"),
            url: String::from_str("https://example.com"),
            selector: String::from_str(""),
            address: String::from_str(""),
            monitor_spot: true,
            monitor_contract: false,
            interval_secs: 60,
            enabled: true,
            notes: String::new(),
        }
    }
}

impl TaskConfig {
    /// A copy of the configuration.
    pub fn duplicate(&self) -> (r: Self)
        ensures
            r@ == self@,
    {
        TaskConfig {
            name: self.name.clone(),
            task_type: self.task_type.clone(),
            url: self.url.clone(),
            selector: self.selector.clone(),
            address: self.address.clone(),
            monitor_spot: self.monitor_spot,
            monitor_contract: self.monitor_contract,
            interval_secs: self.interval_secs,
            enabled: self.enabled,
            notes: self.notes.clone(),
        }
    }
}

/// Notification configuration
#[derive(Debug, Clone)]
pub struct NotificationConfig {
    /// Whether to enable ServerChan notifications
    pub enabled: bool,
    /// ServerChan key
    pub server_chan_key: String,
}

/// What a `NotificationConfig` holds.
pub struct NotificationConfigView {
    pub enabled: bool,
    pub server_chan_key: Seq<char>,
}

impl View for NotificationConfig {
    type V = NotificationConfigView;

    open spec fn view(&self) -> NotificationConfigView {
        NotificationConfigView { enabled: self.enabled, server_chan_key: self.server_chan_key@ }
    }
}

impl Default for NotificationConfig {
    fn default() -> (r: Self)
        ensures
            r@ == (NotificationConfigView { enabled: false, server_chan_key: Seq::empty() }),
    {
        NotificationConfig { enabled: false, server_chan_key: String::new() }
    }
}

/// Application configuration
#[derive(Debug, Clone)]
pub struct Configs {
    /// Notification configuration
    pub notification: NotificationConfig,
    /// Monitoring task list
    pub tasks: Vec<TaskConfig>,
}

/// What a list of task configurations holds.
pub open spec fn tasks_view(tasks: Seq<TaskConfig>) -> Seq<TaskConfigView> {
    Seq::new(tasks.len(), |i: int| tasks[i]@)
}

/// What a `Configs` holds.
pub struct ConfigsView {
    pub notification: NotificationConfigView,
    pub tasks: Seq<TaskConfigView>,
}

impl View for Configs {
    type V = ConfigsView;

    open spec fn view(&self) -> ConfigsView {
        ConfigsView { notification: self.notification@, tasks: tasks_view(self.tasks@) }
    }
}

impl Default for Configs {
    fn default() -> (r: Self)
        ensures
            r@ == (ConfigsView {
                notification: NotificationConfigView {
                    enabled: false,
                    server_chan_key: Seq::empty(),
                },
                tasks: Seq::empty(),
            }),
    {
        let r = Configs { notification: NotificationConfig::default(), tasks: Vec::new() };
        assert(tasks_view(r.tasks@) =~= Seq::<TaskConfigView>::empty());
        r
    }
}

} // verus!
