use hyperliquid_monitor::config::TaskConfig;
use hyperliquid_monitor::monitors::adapter::SourceAdapter;
use hyperliquid_monitor::monitors::{CheckEvent, FetchReply, FetchRequest, Monitor, Step};
use hyperliquid_monitor::supervisor::build_adapter;

fn adapter(task_type: &str) -> SourceAdapter {
    let config = TaskConfig {
        name: "t".to_string(),
        task_type: task_type.to_string(),
        url: "https://t.test".to_string(),
        selector: "$.v".to_string(),
        address: "0xt".to_string(),
        monitor_spot: false,
        monitor_contract: true,
        interval_secs: 33,
        enabled: true,
        notes: "noted".to_string(),
    };
    match build_adapter(&config) {
        Ok(a) => a,
        Err(e) => panic!("{}", e.to_text()),
    }
}

fn one_check<M: Monitor>(monitor: &mut M, body: &str) -> Step {
    match monitor.start_check() {
        Step::Fetch(_) => {}
        other => panic!("unexpected: {:?}", other),
    }
    monitor.resume_check(CheckEvent::Reply(FetchReply::Body(body.to_string())))
}

#[test]
fn every_kind_of_adapter_keeps_interval_and_notes() {
    for kind in ["Static Web", "API Monitor", "Hyperliquid"] {
        let mut a = adapter(kind);
        assert_eq!(a.interval(), 33);
        assert_eq!(a.get_notes(), "noted");
        let name = a.get_name();
        let _ = one_check(&mut a, r#"{"v":1,"assetPositions":[]}"#);
        assert_eq!(a.interval(), 33);
        assert_eq!(a.get_notes(), "noted");
        assert_eq!(a.get_name(), name);
    }
}

#[test]
fn a_page_adapter_checks_like_its_monitor() {
    let mut a = adapter("Static");
    match a.start_check() {
        Step::Fetch(FetchRequest::Get { url }) => assert_eq!(url, "https://t.test"),
        other => panic!("unexpected: {:?}", other),
    }
    match a.resume_check(CheckEvent::Reply(FetchReply::Body("page".to_string()))) {
        Step::Done(Ok(Some(change))) => {
            assert_eq!(change.message, "start: noted");
            assert_eq!(change.details, "Initial content length: 4 bytes");
        }
        other => panic!("unexpected: {:?}", other),
    }
    assert!(matches!(one_check(&mut a, "page"), Step::Done(Ok(None))));
    assert!(matches!(one_check(&mut a, "pages"), Step::Done(Ok(Some(_)))));
}

#[test]
fn an_api_adapter_checks_like_its_monitor() {
    let mut a = adapter("Api");
    match one_check(&mut a, r#"{"v":"x"}"#) {
        Step::Done(Ok(Some(change))) => {
            assert_eq!(change.message, "start: noted");
            assert!(change.details.contains("Initial value: x"));
        }
        other => panic!("unexpected: {:?}", other),
    }
    assert!(matches!(one_check(&mut a, r#"{"v":"x"}"#), Step::Done(Ok(None))));
    assert!(matches!(one_check(&mut a, "{"), Step::Done(Err(_))));
}

#[test]
fn an_account_adapter_checks_like_its_monitor() {
    let mut a = adapter("Hyperliquid");
    match a.start_check() {
        Step::Fetch(FetchRequest::PostJson { fields, .. }) => {
            assert_eq!(fields[0].1, "clearinghouseState");
            assert_eq!(fields[1].1, "0xt");
        }
        other => panic!("unexpected: {:?}", other),
    }
    match a.resume_check(CheckEvent::Reply(FetchReply::Body(
        r#"{"assetPositions":[]}"#.to_string(),
    ))) {
        Step::Quantize(raw) => assert!(raw.is_empty()),
        other => panic!("unexpected: {:?}", other),
    }
    match a.resume_check(CheckEvent::Numbers(vec![])) {
        Step::Done(Ok(Some(change))) => assert_eq!(change.message, "Started monitoring: noted"),
        other => panic!("unexpected: {:?}", other),
    }
}
