use hyperliquid_monitor::config::TaskStatus;
use hyperliquid_monitor::events::{LogColor, Message};
use hyperliquid_monitor::monitors::{Change, FetchError};
use hyperliquid_monitor::poll_loop::{LoopAction, LoopState, PollLoop};

fn change(message: &str) -> Change {
    Change { message: message.to_string(), details: format!("details of {}", message) }
}

fn expect_cycle(actions: &[LoopAction], interval: u64) {
    assert_eq!(actions.len(), 2);
    assert!(matches!(actions[0], LoopAction::Sleep(secs) if secs == interval));
    assert!(matches!(actions[1], LoopAction::Check));
}

fn expect_log(action: &LoopAction, text: &str, color: LogColor) {
    match action {
        LoopAction::Emit(Message::Log(t, c)) => {
            assert_eq!(t, text);
            assert_eq!(*c, color);
        }
        other => panic!("unexpected: {:?}", other),
    }
}

fn expect_notify(action: &LoopAction, title: &str, body: &str) {
    match action {
        LoopAction::Notify { title: t, body: b } => {
            assert_eq!(t, title);
            assert_eq!(b, body);
        }
        other => panic!("unexpected: {:?}", other),
    }
}

#[test]
fn the_loop_checks_at_once() {
    let l = PollLoop::new(2, 60, "notes", true);
    assert_eq!(l.state(), LoopState::AwaitingFirstCheck);
    let actions = l.start();
    assert_eq!(actions.len(), 2);
    assert!(matches!(
        actions[0],
        LoopAction::Emit(Message::TaskStatusChanged(2, TaskStatus::Running))
    ));
    assert!(matches!(actions[1], LoopAction::Check));
}

#[test]
fn a_first_change_is_handed_on_and_notified() {
    let mut l = PollLoop::new(0, 60, "notes", true);
    let actions = l.on_check(Ok(Some(change("start: notes"))));
    assert_eq!(l.state(), LoopState::SteadyPolling);
    assert_eq!(actions.len(), 2);
    match &actions[0] {
        LoopAction::Emit(Message::ChangeDetected(0, c)) => assert_eq!(c.message, "start: notes"),
        other => panic!("unexpected: {:?}", other),
    }
    expect_notify(
        &actions[1],
        "[notes] Started monitoring: start: notes",
        "details of start: notes",
    );
    let actions = l.on_delivery(Ok(()));
    assert_eq!(actions.len(), 3);
    expect_log(
        &actions[0],
        "Initial notification sent: [notes] Started monitoring: start: notes",
        LogColor::LightBlue,
    );
    expect_cycle(&actions[1..], 60);
    assert!(l.on_delivery(Ok(())).is_empty());
}

#[test]
fn a_first_check_without_a_change_is_logged_and_nothing_else() {
    let mut l = PollLoop::new(4, 30, "notes", true);
    assert_eq!(l.task_index(), 4);
    let actions = l.on_check(Ok(None));
    assert_eq!(actions.len(), 3);
    expect_log(&actions[0], "Task #5 detected no changes", LogColor::Gray);
    expect_cycle(&actions[1..], 30);
    assert_eq!(l.state(), LoopState::SteadyPolling);
    assert!(l.on_delivery(Ok(())).is_empty());
    assert!(l.on_delivery(Err("late".to_string())).is_empty());
    let actions = l.on_check(Ok(Some(change("moved"))));
    expect_notify(&actions[1], "[notes] moved", "details of moved");
}

#[test]
fn without_a_notifier_nothing_is_notified() {
    let mut l = PollLoop::new(0, 10, "notes", false);
    let actions = l.on_check(Ok(None));
    assert_eq!(actions.len(), 3);
    expect_log(&actions[0], "Task #1 detected no changes", LogColor::Gray);
    expect_cycle(&actions[1..], 10);
    let actions = l.on_check(Ok(Some(change("moved"))));
    assert_eq!(actions.len(), 3);
    assert!(matches!(&actions[0], LoopAction::Emit(Message::ChangeDetected(0, _))));
    expect_cycle(&actions[1..], 10);
    assert!(l.on_delivery(Ok(())).is_empty());
}

#[test]
fn later_checks_report_changes_and_silence() {
    let mut l = PollLoop::new(1, 15, "notes", true);
    let _ = l.on_check(Ok(Some(change("first"))));
    let _ = l.on_delivery(Ok(()));
    let actions = l.on_check(Ok(None));
    assert_eq!(actions.len(), 3);
    expect_log(&actions[0], "Task #2 detected no changes", LogColor::Gray);
    expect_cycle(&actions[1..], 15);
    let actions = l.on_check(Ok(Some(change("moved"))));
    assert_eq!(actions.len(), 2);
    assert!(matches!(&actions[0], LoopAction::Emit(Message::ChangeDetected(1, _))));
    expect_notify(&actions[1], "[notes] moved", "details of moved");
    let actions = l.on_delivery(Err("Some notifications failed: x".to_string()));
    assert_eq!(actions.len(), 3);
    expect_log(
        &actions[0],
        "Failed to send notification: Some notifications failed: x",
        LogColor::Red,
    );
    expect_cycle(&actions[1..], 15);
    let _ = l.on_check(Ok(Some(change("again"))));
    let actions = l.on_delivery(Ok(()));
    expect_cycle(&actions, 15);
    assert_eq!(l.state(), LoopState::SteadyPolling);
}

#[test]
fn an_error_is_followed_by_a_full_interval() {
    let mut l = PollLoop::new(0, 45, "notes", true);
    let actions = l.on_check(Err(FetchError::Status(503)));
    assert_eq!(l.state(), LoopState::Backoff);
    assert_eq!(actions.len(), 4);
    match &actions[0] {
        LoopAction::Emit(Message::TaskStatusChanged(0, TaskStatus::Error(reason))) => {
            assert_eq!(reason, "Request failed, status code: 503")
        }
        other => panic!("unexpected: {:?}", other),
    }
    expect_log(
        &actions[1],
        "Error getting initial content: Request failed, status code: 503",
        LogColor::Red,
    );
    expect_cycle(&actions[2..], 45);
    let actions = l.on_check(Err(FetchError::Network("timed out".to_string())));
    assert_eq!(l.state(), LoopState::Backoff);
    assert_eq!(actions.len(), 3);
    match &actions[0] {
        LoopAction::Emit(Message::TaskStatusChanged(0, TaskStatus::Error(reason))) => {
            assert_eq!(reason, "Request failed: timed out")
        }
        other => panic!("unexpected: {:?}", other),
    }
    expect_cycle(&actions[1..], 45);
    let actions = l.on_check(Ok(None));
    assert_eq!(l.state(), LoopState::SteadyPolling);
    expect_log(&actions[0], "Task #1 detected no changes", LogColor::Gray);
}

#[test]
fn the_texts_of_the_errors() {
    assert_eq!(FetchError::Network("n".to_string()).to_text(), "Request failed: n");
    assert_eq!(FetchError::Status(404).to_text(), "Request failed, status code: 404");
    assert_eq!(FetchError::Parse("p".to_string()).to_text(), "Failed to parse response: p");
    assert_eq!(FetchError::Extraction("e".to_string()).to_text(), "Failed to extract data: e");
}

#[test]
fn a_cancelled_loop_asks_for_nothing() {
    let mut l = PollLoop::new(0, 5, "notes", true);
    let _ = l.on_check(Ok(Some(change("c"))));
    l.cancel();
    assert_eq!(l.state(), LoopState::Cancelled);
    assert!(l.on_delivery(Ok(())).is_empty());
    assert!(l.on_check(Ok(Some(change("c")))).is_empty());
    assert!(l.on_check(Err(FetchError::Status(500))).is_empty());
    assert!(l.on_delivery(Err("x".to_string())).is_empty());
    assert!(l.start().is_empty());
    assert_eq!(l.state(), LoopState::Cancelled);
}
