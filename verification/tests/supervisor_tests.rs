use hyperliquid_monitor::config::{
    Configs, NotificationConfig, TaskConfig, TaskStatus, TaskType,
};
use hyperliquid_monitor::events::{LogColor, Message};
use hyperliquid_monitor::monitors::adapter::SourceAdapter;
use hyperliquid_monitor::monitors::{Change, Monitor};
use hyperliquid_monitor::poll_loop::LoopState;
use hyperliquid_monitor::supervisor::{
    build_adapter, ConfigurationError, SupervisorAction, TaskSupervisor,
};

fn task(name: &str, task_type: &str) -> TaskConfig {
    TaskConfig {
        name: name.to_string(),
        task_type: task_type.to_string(),
        url: format!("https://{}.test", name),
        selector: "$.v".to_string(),
        address: format!("0x{}", name),
        monitor_spot: true,
        monitor_contract: true,
        interval_secs: 60,
        enabled: true,
        notes: String::new(),
    }
}

fn supervisor(tasks: Vec<TaskConfig>) -> TaskSupervisor {
    let configs = Configs { notification: NotificationConfig::default(), tasks };
    TaskSupervisor::new(configs, None).0
}

fn expect_log(action: &SupervisorAction, text: &str, color: LogColor) {
    match action {
        SupervisorAction::Log(t, c) => {
            assert_eq!(t, text);
            assert_eq!(*c, color);
        }
        _ => panic!("a log line was expected: {}", text),
    }
}

#[test]
fn a_new_supervisor_has_every_task_idle() {
    let configs = Configs {
        notification: NotificationConfig::default(),
        tasks: vec![task("a", "Static"), task("b", "Api")],
    };
    let (s, actions) = TaskSupervisor::new(configs, None);
    assert_eq!(actions.len(), 2);
    expect_log(&actions[0], "Hyperliquid Monitoring System Started", LogColor::Green);
    expect_log(&actions[1], "Version: 0.1.0", LogColor::White);
    assert_eq!(s.task_count(), 2);
    assert_eq!(s.status(0), Some(TaskStatus::Idle));
    assert_eq!(s.status(1), Some(TaskStatus::Idle));
    assert_eq!(s.status(2), None);
    assert_eq!(s.handle(0), None);
    assert!(s.notifier().is_none());
    let saved = s.configs();
    assert_eq!(saved.tasks.len(), 2);
    assert_eq!(saved.tasks[0].name, "a");
    assert_eq!(saved.tasks[1].task_type, "Api");
}

#[test]
fn the_notifier_comes_from_the_configuration_or_the_environment() {
    let with_key = Configs {
        notification: NotificationConfig { enabled: false, server_chan_key: "cfg".to_string() },
        tasks: vec![],
    };
    let (s, _) = TaskSupervisor::new(with_key, Some("env".to_string()));
    assert_eq!(s.notifier().unwrap().get_keys(), vec!["cfg".to_string()]);
    let (s, _) = TaskSupervisor::new(Configs::default(), Some("env".to_string()));
    assert_eq!(s.notifier().unwrap().get_keys(), vec!["env".to_string()]);
    let (s, _) = TaskSupervisor::new(Configs::default(), Some(String::new()));
    assert!(s.notifier().is_none());
}

#[test]
fn starting_a_task_spawns_a_loop_for_a_fresh_adapter() {
    let mut s = supervisor(vec![task("a", "Static"), task("b", "Hyperliquid")]);
    let mut actions = s.start_task(1);
    assert_eq!(actions.len(), 2);
    expect_log(&actions[1], "Started task #2: b", LogColor::Green);
    match actions.remove(0) {
        SupervisorAction::Spawn { handle, adapter, poll_loop } => {
            assert_eq!(Some(handle), s.handle(1));
            assert_eq!(adapter.get_name(), "Hyperliquid monitor for 0xb");
            assert_eq!(adapter.get_notes(), "0xb");
            assert_eq!(adapter.interval(), 60);
            assert!(matches!(adapter, SourceAdapter::ExchangeAccount(_)));
            assert_eq!(poll_loop.state(), LoopState::AwaitingFirstCheck);
        }
        _ => panic!("a spawn was expected"),
    }
    assert_eq!(s.status(1), Some(TaskStatus::Running));
    assert_eq!(s.status(0), Some(TaskStatus::Idle));
}

#[test]
fn starting_a_running_task_cancels_its_loop_first() {
    let mut s = supervisor(vec![task("a", "Api")]);
    let _ = s.start_task(0);
    let first = s.handle(0).unwrap();
    let actions = s.start_task(0);
    assert_eq!(actions.len(), 3);
    assert!(matches!(actions[0], SupervisorAction::Cancel(h) if h == first));
    assert!(matches!(actions[1], SupervisorAction::Spawn { .. }));
    let second = s.handle(0).unwrap();
    assert_ne!(first, second);
    assert_eq!(s.status(0), Some(TaskStatus::Running));
}

#[test]
fn a_task_of_an_unknown_type_is_not_started() {
    let mut s = supervisor(vec![task("a", "Carrier Pigeon")]);
    let actions = s.start_task(0);
    assert_eq!(actions.len(), 1);
    expect_log(&actions[0], "Unknown task type: Carrier Pigeon", LogColor::Red);
    assert_eq!(s.status(0), Some(TaskStatus::Idle));
    assert_eq!(s.handle(0), None);
    match build_adapter(&task("a", "")) {
        Err(ConfigurationError::UnknownKind(t)) => assert_eq!(t, ""),
        Ok(_) => panic!("no adapter was expected"),
    }
    assert_eq!(
        ConfigurationError::UnknownKind("x".to_string()).to_text(),
        "Unknown task type: x"
    );
}

#[test]
fn adapters_are_built_by_the_type_of_the_task() {
    let mut with_notes = task("a", "Static Web");
    with_notes.notes = "front page".to_string();
    match build_adapter(&with_notes) {
        Ok(SourceAdapter::WebPage(m)) => {
            assert_eq!(m.get_notes(), "front page");
            assert_eq!(m.get_name(), "Static webpage monitor for https://a.test");
        }
        _ => panic!("a page monitor was expected"),
    }
    assert!(matches!(build_adapter(&task("a", "Static")), Ok(SourceAdapter::WebPage(_))));
    match build_adapter(&task("a", "API Monitor")) {
        Ok(SourceAdapter::ApiJson(m)) => {
            assert_eq!(m.get_notes(), "https://a.test");
            assert_eq!(m.path(), "$.v");
        }
        _ => panic!("an API monitor was expected"),
    }
    assert!(matches!(build_adapter(&task("a", "Api")), Ok(SourceAdapter::ApiJson(_))));
    assert!(matches!(
        build_adapter(&task("a", "Hyperliquid")),
        Ok(SourceAdapter::ExchangeAccount(_))
    ));
    assert!(build_adapter(&task("a", "static")).is_err());
}

#[test]
fn stopping_a_task_without_a_loop_changes_nothing() {
    let mut s = supervisor(vec![task("a", "Static"), task("b", "Static")]);
    assert!(s.stop_task(0).is_empty());
    assert!(s.stop_task(7).is_empty());
    assert_eq!(s.status(0), Some(TaskStatus::Idle));
    let _ = s.start_task(1);
    s.receive(&Message::TaskStatusChanged(1, TaskStatus::Error("down".to_string())));
    assert_eq!(s.status(1), Some(TaskStatus::Error("down".to_string())));
    assert!(s.stop_task(0).is_empty());
    assert_eq!(s.status(1), Some(TaskStatus::Error("down".to_string())));
    assert!(s.handle(1).is_some());
    assert_eq!(s.task_count(), 2);
}

#[test]
fn stopping_a_running_task_cancels_its_loop() {
    let mut s = supervisor(vec![task("a", "Static")]);
    let _ = s.start_task(0);
    let handle = s.handle(0).unwrap();
    let actions = s.stop_task(0);
    assert_eq!(actions.len(), 2);
    assert!(matches!(actions[0], SupervisorAction::Cancel(h) if h == handle));
    expect_log(&actions[1], "Stopped task #1: a", LogColor::Yellow);
    assert_eq!(s.status(0), Some(TaskStatus::Idle));
    assert_eq!(s.handle(0), None);
    assert!(s.stop_task(0).is_empty());
}

#[test]
fn stopping_all_tasks_leaves_no_loop() {
    let mut s = supervisor(vec![task("a", "Static"), task("b", "Api"), task("c", "Hyperliquid")]);
    let _ = s.start_task(0);
    let _ = s.start_task(2);
    let h0 = s.handle(0).unwrap();
    let h2 = s.handle(2).unwrap();
    let actions = s.stop_all_tasks();
    assert_eq!(actions.len(), 4);
    assert!(matches!(actions[0], SupervisorAction::Cancel(h) if h == h0));
    expect_log(&actions[1], "Stopped task #1: a", LogColor::Yellow);
    assert!(matches!(actions[2], SupervisorAction::Cancel(h) if h == h2));
    expect_log(&actions[3], "Stopped task #3: c", LogColor::Yellow);
    for i in 0..3 {
        assert_eq!(s.status(i), Some(TaskStatus::Idle));
        assert_eq!(s.handle(i), None);
    }
    assert!(s.stop_all_tasks().is_empty());
}

#[test]
fn deleting_a_task_moves_the_next_one_up() {
    let mut s = supervisor(vec![task("a", "Static"), task("b", "Api"), task("c", "Hyperliquid")]);
    let _ = s.start_task(1);
    let handle = s.handle(1).unwrap();
    let (deleted, actions) = s.delete_task(1);
    assert!(deleted);
    assert_eq!(actions.len(), 4);
    assert!(matches!(actions[0], SupervisorAction::Cancel(h) if h == handle));
    expect_log(&actions[1], "Stopped task #2: b", LogColor::Yellow);
    expect_log(&actions[2], "Deleted task: b", LogColor::LightRed);
    assert!(matches!(actions[3], SupervisorAction::SaveConfig));
    assert_eq!(s.task_count(), 2);
    assert_eq!(s.status(1), Some(TaskStatus::Idle));
    let mut actions = s.start_task(1);
    expect_log(&actions[1], "Started task #2: c", LogColor::Green);
    match actions.remove(0) {
        SupervisorAction::Spawn { adapter, .. } => {
            assert_eq!(adapter.get_name(), "Hyperliquid monitor for 0xc")
        }
        _ => panic!("a spawn was expected"),
    }
    let (deleted, _) = s.delete_task(1);
    assert!(deleted);
    assert!(s.start_task(1).is_empty());
    assert_eq!(s.task_count(), 1);
    let (deleted, actions) = s.delete_task(5);
    assert!(!deleted);
    assert!(actions.is_empty());
    assert_eq!(s.task_count(), 1);
    assert_eq!(s.configs().tasks[0].name, "a");
}

#[test]
fn adding_and_updating_tasks() {
    let mut s = supervisor(vec![]);
    assert!(s.start_task(0).is_empty());
    let actions = s.add_task(task("a", "Static"));
    assert_eq!(actions.len(), 2);
    expect_log(&actions[0], "Added new task: a", LogColor::LightBlue);
    assert!(matches!(actions[1], SupervisorAction::SaveConfig));
    assert_eq!(s.task_count(), 1);
    assert_eq!(s.status(0), Some(TaskStatus::Idle));
    let _ = s.start_task(0);
    let handle = s.handle(0).unwrap();
    let actions = s.update_task(0, task("renamed", "Api"));
    assert_eq!(actions.len(), 4);
    assert!(matches!(actions[0], SupervisorAction::Cancel(h) if h == handle));
    expect_log(&actions[1], "Stopped task #1: a", LogColor::Yellow);
    expect_log(&actions[2], "Updated task #1: renamed", LogColor::LightBlue);
    assert!(matches!(actions[3], SupervisorAction::SaveConfig));
    assert_eq!(s.status(0), Some(TaskStatus::Idle));
    assert_eq!(s.handle(0), None);
    assert_eq!(s.configs().tasks[0].name, "renamed");
    assert!(s.update_task(3, task("x", "Api")).is_empty());
    assert_eq!(s.task_count(), 1);
}

#[test]
fn messages_of_cancelled_loops_change_nothing() {
    let mut s = supervisor(vec![task("a", "Static")]);
    s.receive(&Message::TaskStatusChanged(0, TaskStatus::Error("down".to_string())));
    assert_eq!(s.status(0), Some(TaskStatus::Idle));
    s.receive(&Message::TaskStatusChanged(9, TaskStatus::Error("down".to_string())));
    let _ = s.start_task(0);
    s.receive(&Message::Log("x".to_string(), LogColor::Gray));
    s.receive(&Message::ChangeDetected(
        0,
        Change { message: "m".to_string(), details: "d".to_string() },
    ));
    assert_eq!(s.status(0), Some(TaskStatus::Running));
    s.receive(&Message::TaskStatusChanged(0, TaskStatus::Error("down".to_string())));
    assert_eq!(s.status(0), Some(TaskStatus::Error("down".to_string())));
    let _ = s.stop_task(0);
    s.receive(&Message::TaskStatusChanged(0, TaskStatus::Running));
    assert_eq!(s.status(0), Some(TaskStatus::Idle));
}

#[test]
fn notification_settings_switch_the_notifier() {
    let mut s = supervisor(vec![]);
    let actions = s.update_notification_config(NotificationConfig {
        enabled: true,
        server_chan_key: "k".to_string(),
    });
    assert_eq!(actions.len(), 2);
    expect_log(&actions[0], "Updated ServerChan notification configuration", LogColor::LightBlue);
    assert!(matches!(actions[1], SupervisorAction::SaveConfig));
    assert_eq!(s.notifier().unwrap().get_keys(), vec!["k".to_string()]);
    assert_eq!(s.configs().notification.server_chan_key, "k");
    assert!(s.configs().notification.enabled);
    let actions = s.update_notification_config(NotificationConfig {
        enabled: false,
        server_chan_key: "k".to_string(),
    });
    expect_log(&actions[0], "Disabled ServerChan notifications", LogColor::Yellow);
    assert!(s.notifier().is_none());
    let actions = s.update_notification_config(NotificationConfig {
        enabled: true,
        server_chan_key: String::new(),
    });
    expect_log(&actions[0], "Disabled ServerChan notifications", LogColor::Yellow);
    assert!(s.notifier().is_none());
}

#[test]
fn defaults_and_names_of_the_configuration() {
    let t = TaskConfig::default();
    assert_eq!(t.name, "New Task");
    assert_eq!(t.task_type, "Static Web");
    assert_eq!(t.url, "https://example.com");
    assert_eq!(t.selector, "");
    assert_eq!(t.address, "");
    assert!(t.monitor_spot);
    assert!(!t.monitor_contract);
    assert_eq!(t.interval_secs, 60);
    assert!(t.enabled);
    assert_eq!(t.notes, "");
    let copy = t.duplicate();
    assert_eq!(copy.name, t.name);
    assert_eq!(copy.interval_secs, t.interval_secs);
    let n = NotificationConfig::default();
    assert!(!n.enabled);
    assert_eq!(n.server_chan_key, "");
    let c = Configs::default();
    assert!(c.tasks.is_empty());
    assert!(!c.notification.enabled);
    assert_eq!(TaskType::from_str("Static Web"), Some(TaskType::Static));
    assert_eq!(TaskType::from_str("Hyperliquid"), Some(TaskType::Hyperliquid));
    assert_eq!(TaskType::from_str("API Monitor"), Some(TaskType::Api));
    assert_eq!(TaskType::from_str("Static"), None);
    assert_eq!(TaskType::from_str(""), None);
    assert_eq!(TaskType::of_task("Static"), Some(TaskType::Static));
    assert_eq!(TaskType::of_task("Api"), Some(TaskType::Api));
    assert_eq!(TaskType::of_task("API Monitor"), Some(TaskType::Api));
    assert_eq!(TaskType::of_task("api"), None);
    for t in [TaskType::Static, TaskType::Hyperliquid, TaskType::Api] {
        assert_eq!(TaskType::from_str(&t.to_text()), Some(t));
    }
    assert_eq!(TaskStatus::Idle.to_text(), "Idle");
    assert_eq!(TaskStatus::Running.to_text(), "Running");
    assert_eq!(TaskStatus::Error("down".to_string()).to_text(), "Error: down");
    assert_eq!(TaskStatus::Error(String::new()).duplicate(), TaskStatus::Error(String::new()));
}

#[test]
fn loops_of_different_tasks_never_share_a_handle() {
    let mut s = supervisor(vec![task("a", "Static"), task("b", "Api"), task("c", "Hyperliquid")]);
    let _ = s.start_task(0);
    let _ = s.start_task(1);
    let _ = s.start_task(2);
    let (h0, h1, h2) = (s.handle(0).unwrap(), s.handle(1).unwrap(), s.handle(2).unwrap());
    assert!(h0 != h1 && h0 != h2 && h1 != h2);
    let _ = s.stop_task(1);
    let _ = s.start_task(1);
    let again = s.handle(1).unwrap();
    assert!(again != h0 && again != h2);
    let _ = s.start_task(0);
    let restarted = s.handle(0).unwrap();
    assert!(restarted != h0 && restarted != again && restarted != h2);
    let (_, _) = s.delete_task(0);
    let _ = s.start_task(0);
    let _ = s.start_task(1);
    assert_ne!(s.handle(0), s.handle(1));
    assert_eq!(s.status(0), Some(TaskStatus::Running));
    assert_eq!(s.status(1), Some(TaskStatus::Running));
}
