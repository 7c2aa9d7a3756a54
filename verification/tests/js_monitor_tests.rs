use hyperliquid_monitor::json::member_text;
use hyperliquid_monitor::monitors::js_monitor::JsMonitor;
use hyperliquid_monitor::monitors::{CheckEvent, FetchError, FetchReply, FetchRequest, Monitor, Step};

fn body(text: &str) -> FetchReply {
    FetchReply::Body(text.to_string())
}

#[test]
fn the_first_value_is_recorded_in_silence() {
    let mut m = JsMonitor::new("https://api.test/p", "data.price", 20);
    assert!(m.check(body(r#"{"data":{"price":"1.5"}}"#)).unwrap().is_none());
    assert!(m.check(body(r#"{"data":{"price":"1.5"}}"#)).unwrap().is_none());
    let change = m.check(body(r#"{"data":{"price":2}}"#)).unwrap().unwrap();
    assert_eq!(change.message, "API data changed: https://api.test/p");
    assert_eq!(change.details, "Selector: data.price\nOld value: 1.5\nNew value: 2");
    assert!(m.check(body(r#"{"data":{"price":2}}"#)).unwrap().is_none());
}

#[test]
fn a_dotted_path_leads_through_the_members() {
    let m = JsMonitor::new("u", "a", 1);
    let doc = r#"{"a":{"b":{"c":"deep"},"n":[1,2],"s":"x y"},"":7}"#;
    assert_eq!(m.extract_value(doc, "a.b.c").unwrap(), "deep");
    assert_eq!(m.extract_value(doc, "a.s").unwrap(), "x y");
    assert_eq!(m.extract_value(doc, "a.n").unwrap(), "[1,2]");
    assert_eq!(m.extract_value(doc, "a.b").unwrap(), "{\"c\":\"deep\"}");
    assert_eq!(m.extract_value(doc, "").unwrap(), "7");
    match m.extract_value(doc, "a.x.c") {
        Err(FetchError::Extraction(reason)) => {
            assert_eq!(reason, "Failed to find 'x' in JSON response")
        }
        other => panic!("unexpected: {:?}", other),
    }
    match m.extract_value(doc, "a.n.0") {
        Err(FetchError::Extraction(reason)) => {
            assert_eq!(reason, "Failed to find '0' in JSON response")
        }
        other => panic!("unexpected: {:?}", other),
    }
    match m.extract_value(doc, "b") {
        Err(FetchError::Extraction(reason)) => {
            assert_eq!(reason, "Failed to find 'b' in JSON response")
        }
        other => panic!("unexpected: {:?}", other),
    }
    match m.extract_value(doc, "a..c") {
        Err(FetchError::Extraction(reason)) => {
            assert_eq!(reason, "Failed to find '' in JSON response")
        }
        other => panic!("unexpected: {:?}", other),
    }
}

#[test]
fn failures_are_errors_and_keep_the_baseline() {
    let mut m = JsMonitor::new("u", "v", 1);
    assert!(m.check(body(r#"{"v":1}"#)).unwrap().is_none());
    assert!(matches!(
        m.check(FetchReply::Failed("x".to_string())),
        Err(FetchError::Network(_))
    ));
    assert!(matches!(m.check(FetchReply::Status(500)), Err(FetchError::Status(500))));
    assert!(matches!(m.check(body("nope")), Err(FetchError::Parse(_))));
    assert!(matches!(m.check(body(r#"{"w":1}"#)), Err(FetchError::Extraction(_))));
    assert!(m.check(body(r#"{"v":1}"#)).unwrap().is_none());
    assert!(m.check(body(r#"{"v":3}"#)).unwrap().is_some());
}

#[test]
fn a_check_of_a_member_is_one_fetch() {
    let mut m = JsMonitor::new("https://api.test/p", "v", 9);
    assert_eq!(m.interval(), 9);
    assert_eq!(m.get_name(), "JavaScript monitor for https://api.test/p");
    assert_eq!(m.get_notes(), "https://api.test/p");
    match m.start_check() {
        Step::Fetch(FetchRequest::Get { url }) => assert_eq!(url, "https://api.test/p"),
        other => panic!("unexpected: {:?}", other),
    }
    assert!(matches!(
        m.resume_check(CheckEvent::Reply(body(r#"{"v":1}"#))),
        Step::Done(Ok(None))
    ));
    assert!(matches!(m.resume_check(CheckEvent::Numbers(vec![])), Step::Done(Ok(None))));
}

#[test]
fn a_string_is_shown_bare_and_any_other_value_as_json() {
    let doc = r#"{"s":"a \"b\"","n":1.50,"t":true,"z":null,"o":{"k":[1,"x"]},"e":""}"#;
    let keys = |k: &str| vec![k.to_string()];
    assert_eq!(member_text(doc, &keys("s")), Some("a \"b\"".to_string()));
    assert_eq!(member_text(doc, &keys("e")), Some(String::new()));
    assert_eq!(member_text(doc, &keys("n")), Some("1.5".to_string()));
    assert_eq!(member_text(doc, &keys("t")), Some("true".to_string()));
    assert_eq!(member_text(doc, &keys("z")), Some("null".to_string()));
    assert_eq!(member_text(doc, &keys("o")), Some("{\"k\":[1,\"x\"]}".to_string()));
    assert_eq!(member_text(doc, &vec![]), Some(doc.replace("1.50", "1.5")));
    assert_eq!(member_text(doc, &keys("missing")), None);
    assert_eq!(member_text("no json", &keys("s")), None);
}
