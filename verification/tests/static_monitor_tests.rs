use hyperliquid_monitor::monitors::static_monitor::{extract_between, StaticMonitor};
use hyperliquid_monitor::monitors::{CheckEvent, FetchError, FetchReply, FetchRequest, Monitor, Step};

fn body(text: &str) -> FetchReply {
    FetchReply::Body(text.to_string())
}

#[test]
fn first_check_reports_the_start_and_the_same_content_nothing() {
    let mut m = StaticMonitor::new_with_notes("https://example.com", "", 60, "my page");
    let first = m.check(body("<html>hello</html>")).unwrap().unwrap();
    assert_eq!(first.message, "start: my page");
    assert!(first.message.ends_with(&m.get_notes()));
    assert_eq!(first.details, "Initial content length: 18 bytes");
    assert!(m.check(body("<html>hello</html>")).unwrap().is_none());
    assert!(m.check(body("<html>hello</html>")).unwrap().is_none());
}

#[test]
fn title_change_with_the_same_length_is_described() {
    let mut m = StaticMonitor::new("https://example.com", "", 60);
    let first = m.check(body("<html><title>A</title>hello</html>")).unwrap().unwrap();
    assert!(first.message.starts_with("start: "));
    assert_eq!(first.message, "start: https://example.com");
    let second = m.check(body("<html><title>B</title>hello</html>")).unwrap().unwrap();
    assert!(second.details.contains("Title changed: 'A' -> 'B'"));
    assert_eq!(
        second.message,
        "https://example.com 内容长度相同，但内容已变化\nTitle changed: 'A' -> 'B'\n"
    );
    assert_eq!(
        second.details,
        "Changes:\n内容长度相同，但内容已变化\nTitle changed: 'A' -> 'B'\n\n\nCurrent content length: 34 bytes\n\nPrevious content length: 34 bytes"
    );
}

#[test]
fn growth_and_shrinkage_are_counted_in_bytes() {
    let m = StaticMonitor::new("u", "", 1);
    assert_eq!(
        m.generate_change_description("abc", "abcdef"),
        "内容增加: 3 -> 6 字节 (增加 3 字节)\n"
    );
    assert_eq!(
        m.generate_change_description("abcdef", "é"),
        "内容减少: 6 -> 2 字节 (减少 4 字节)\n"
    );
    assert_eq!(m.generate_change_description("abc", "abd"), "内容长度相同，但内容已变化\n");
}

#[test]
fn titles_are_compared_only_where_both_pages_have_one() {
    let m = StaticMonitor::new("u", "", 1);
    assert_eq!(
        m.generate_change_description("<title>A</title>", "<p>no title</p>"),
        "内容减少: 16 -> 15 字节 (减少 1 字节)\n"
    );
    assert_eq!(
        m.generate_change_description("<title>A", "<title>B</title>"),
        "内容增加: 8 -> 16 字节 (增加 8 字节)\nTitle changed: '未找到' -> 'B'\n"
    );
    assert_eq!(
        m.generate_change_description("<title>A</title>x", "<title>A</title>y"),
        "内容长度相同，但内容已变化\n"
    );
}

#[test]
fn a_failed_fetch_is_an_error_and_keeps_the_baseline() {
    let mut m = StaticMonitor::new("u", "", 1);
    assert!(m.check(body("one")).unwrap().is_some());
    match m.check(FetchReply::Failed("timed out".to_string())) {
        Err(FetchError::Network(reason)) => assert_eq!(reason, "timed out"),
        other => panic!("unexpected: {:?}", other),
    }
    match m.check(FetchReply::Status(503)) {
        Err(FetchError::Status(code)) => assert_eq!(code, 503),
        other => panic!("unexpected: {:?}", other),
    }
    assert!(m.check(body("one")).unwrap().is_none());
}

#[test]
fn a_failed_first_fetch_leaves_the_start_to_the_next_check() {
    let mut m = StaticMonitor::new("u", "", 1);
    assert!(m.check(FetchReply::Status(500)).is_err());
    let change = m.check(body("x")).unwrap().unwrap();
    assert_eq!(change.message, "start: u");
}

#[test]
fn blank_notes_leave_the_url_as_the_note() {
    let m = StaticMonitor::new_with_notes("https://a", "", 5, "   ");
    assert_eq!(m.get_notes(), "https://a");
    let mut m = StaticMonitor::new_with_notes("https://a", "", 5, " kept ");
    assert_eq!(m.get_notes(), " kept ");
    m.set_notes("");
    assert_eq!(m.get_notes(), " kept ");
    m.set_notes("new");
    assert_eq!(m.get_notes(), "new");
    assert_eq!(m.interval(), 5);
    assert_eq!(m.get_name(), "Static webpage monitor for https://a");
}

#[test]
fn text_between_markers_is_found() {
    assert_eq!(extract_between("<title>Hi</title>", "<title>", "</title>"), Some("Hi"));
    assert_eq!(extract_between("a<b>1</b><b>2</b>", "<b>", "</b>"), Some("1"));
    assert_eq!(extract_between("</b>x<b>y</b>", "<b>", "</b>"), Some("y"));
    assert_eq!(extract_between("<title>Hi", "<title>", "</title>"), None);
    assert_eq!(extract_between("nothing", "<title>", "</title>"), None);
    assert_eq!(extract_between("<t>é—ü</t>", "<t>", "</t>"), Some("é—ü"));
    assert_eq!(extract_between("<t></t>", "<t>", "</t>"), Some(""));
}

#[test]
fn a_check_of_a_page_is_one_fetch() {
    let mut m = StaticMonitor::new("https://example.com/x", "", 60);
    match m.start_check() {
        Step::Fetch(FetchRequest::Get { url }) => assert_eq!(url, "https://example.com/x"),
        other => panic!("unexpected: {:?}", other),
    }
    match m.resume_check(CheckEvent::Reply(body("page"))) {
        Step::Done(Ok(Some(change))) => assert_eq!(change.message, "start: https://example.com/x"),
        other => panic!("unexpected: {:?}", other),
    }
    match m.resume_check(CheckEvent::Numbers(Vec::new())) {
        Step::Done(Ok(None)) => {}
        other => panic!("unexpected: {:?}", other),
    }
    match m.resume_check(CheckEvent::Reply(body("page"))) {
        Step::Done(Ok(None)) => {}
        other => panic!("unexpected: {:?}", other),
    }
}
