use hyperliquid_monitor::monitors::hyperliquid_monitor::{
    format_timestamp, latest_trade, parse_positions, render_trade_time, HyperliquidMonitor,
    TradeRecord,
};
use hyperliquid_monitor::monitors::positions::{
    calculate_positions_hash, position_from, positions_from, render_positions, render_title,
    PositionInfo, PositionNumbers, PositionSide,
};
use hyperliquid_monitor::monitors::{CheckEvent, FetchError, FetchReply, FetchRequest, Monitor, Step};

fn body(text: &str) -> FetchReply {
    FetchReply::Body(text.to_string())
}

fn position(asset: &str, side: PositionSide, size: u64, entry_price: u64) -> PositionInfo {
    PositionInfo {
        asset: asset.to_string(),
        leverage: 10,
        position_type: side,
        entry_price,
        mark_price: 4400000,
        size,
        position_value: 2200000,
        pnl_percentage: 232,
    }
}

fn numbers(coin: &str, szi: i64, entry_px: u64, mark_px: u64) -> PositionNumbers {
    PositionNumbers { coin: coin.to_string(), szi, entry_px, mark_px, leverage: 5 }
}

fn trade(tid: &str) -> TradeRecord {
    TradeRecord {
        tid: tid.to_string(),
        asset: "ETH".to_string(),
        side: "Buy".to_string(),
        price: "3000.5".to_string(),
        size: "0.1".to_string(),
        time: 1700000000000,
    }
}

const TRADES: &str = r#"[{"tid":"t1","asset":"ETH","side":"B","px":"3000.5","sz":"0.1","time":1700000000000},{"tid":"t0"}]"#;

#[test]
fn positions_from_empty_to_open_to_closed() {
    let mut m = HyperliquidMonitor::new_with_notes("0xabc", 120, false, true, "desk");
    let start = m.check_contract_positions(vec![]).unwrap();
    assert_eq!(start.message, "Started monitoring: desk");
    assert_eq!(
        start.details,
        "Started monitoring user: 0xabc\n\nNo active positions currently\n\nView more information: @https://hyperdash.info/trader/0xabc\n\nNotes: desk"
    );
    assert!(m.check_contract_positions(vec![]).is_none());
    let opened = m
        .check_contract_positions(vec![position("BTC", PositionSide::Long, 5000, 4300050)])
        .unwrap();
    assert_eq!(opened.message, "desk - Asset:BTC Lever:10x Type:long Entry price:43000.50");
    assert_eq!(
        opened.details,
        "User position changes:\n\nAsset: BTC\nLeverage: 10x\nType: long\nEntry price: 43000.50\nMark price: 44000.00\nPosition size: 0.5000\nPosition value: $22000.00\nPNL: 2.32%\nView more information: @https://hyperdash.info/trader/0xabc\n\nNotes: desk"
    );
    assert!(m
        .check_contract_positions(vec![position("BTC", PositionSide::Long, 5000, 4300050)])
        .is_none());
    let closed = m.check_contract_positions(vec![]).unwrap();
    assert_eq!(closed.message, "No active positions - desk");
    assert_eq!(
        closed.details,
        "User: 0xabc\n\nNo active positions currently\n\nView more information: @https://hyperdash.info/trader/0xabc\n\nNotes: desk"
    );
    assert!(m.check_contract_positions(vec![]).is_none());
}

#[test]
fn first_look_at_open_positions_lists_them() {
    let mut m = HyperliquidMonitor::new("0xabc", 120, true, true);
    let start = m
        .check_contract_positions(vec![
            position("BTC", PositionSide::Long, 5000, 4300050),
            position("ETH", PositionSide::Short, 12345, 300000),
        ])
        .unwrap();
    assert_eq!(start.message, "Started monitoring: 0xabc");
    assert!(start.details.starts_with("User's current positions:\n\nAsset: BTC\n"));
    assert!(start.details.contains("PNL: 2.32%\n\nAsset: ETH\nLeverage: 10x\nType: short\nEntry price: 3000.00\n"));
    assert!(start.details.contains("Position size: 1.2345\n"));
    assert!(start.details.ends_with(
        "PNL: 2.32%\nView more information: @https://hyperdash.info/trader/0xabc\n\nNotes: 0xabc"
    ));
}

#[test]
fn positions_are_not_looked_at_where_they_are_not_watched() {
    let mut m = HyperliquidMonitor::new("0xabc", 120, true, false);
    assert!(m.check_contract_positions(vec![]).is_none());
    assert!(m
        .check_contract_positions(vec![position("BTC", PositionSide::Long, 5000, 1)])
        .is_none());
}

#[test]
fn the_fingerprint_does_not_depend_on_the_order() {
    let a = position("BTC", PositionSide::Long, 5000, 4300050);
    let b = position("ETH", PositionSide::Short, 12345, 300000);
    let c = position("BTC", PositionSide::Short, 5000, 4300050);
    let one = calculate_positions_hash(&vec![a.clone(), b.clone(), c.clone()]);
    let two = calculate_positions_hash(&vec![c.clone(), a.clone(), b.clone()]);
    let three = calculate_positions_hash(&vec![b.clone(), c.clone(), a.clone()]);
    assert!(one.same(&two));
    assert!(two.same(&three));
    assert!(one.same(&one));
    assert_eq!(one.len(), 3);
}

#[test]
fn the_fingerprint_tells_different_positions_apart() {
    let base = vec![
        position("BTC", PositionSide::Long, 5000, 4300050),
        position("ETH", PositionSide::Short, 12345, 300000),
    ];
    let print = calculate_positions_hash(&base);
    let mut other = base.clone();
    other[1].size = 12400;
    assert!(!print.same(&calculate_positions_hash(&other)));
    let mut other = base.clone();
    other[0].entry_price = 4300051;
    assert!(!print.same(&calculate_positions_hash(&other)));
    let mut other = base.clone();
    other[0].position_type = PositionSide::Short;
    assert!(!print.same(&calculate_positions_hash(&other)));
    let mut other = base.clone();
    other[1].asset = "SOL".to_string();
    assert!(!print.same(&calculate_positions_hash(&other)));
    assert!(!print.same(&calculate_positions_hash(&base[..1].to_vec())));
    let mut twice = base.clone();
    twice.push(base[0].clone());
    assert!(!print.same(&calculate_positions_hash(&twice)));
    assert!(!print.same(&calculate_positions_hash(&vec![])));
}

#[test]
fn the_fingerprint_rounds_the_size_to_hundredths() {
    let print = calculate_positions_hash(&vec![position("BTC", PositionSide::Long, 12349, 1)]);
    let same = calculate_positions_hash(&vec![position("BTC", PositionSide::Long, 12250, 1)]);
    let more = calculate_positions_hash(&vec![position("BTC", PositionSide::Long, 12350, 1)]);
    assert!(print.same(&same));
    assert!(!print.same(&more));
    let mut moved = position("BTC", PositionSide::Long, 12349, 1);
    moved.mark_price = 1;
    moved.leverage = 3;
    moved.position_value = 9;
    moved.pnl_percentage = -50;
    assert!(print.same(&calculate_positions_hash(&vec![moved])));
}

#[test]
fn a_change_of_the_order_alone_is_no_change() {
    let a = position("BTC", PositionSide::Long, 5000, 4300050);
    let b = position("ETH", PositionSide::Short, 12345, 300000);
    let mut m = HyperliquidMonitor::new("0xabc", 120, false, true);
    assert!(m.check_contract_positions(vec![a.clone(), b.clone()]).is_some());
    assert!(m.check_contract_positions(vec![b.clone(), a.clone()]).is_none());
    let mut bigger = b.clone();
    bigger.size = 20000;
    let change = m.check_contract_positions(vec![bigger, a]).unwrap();
    assert_eq!(change.message, "0xabc - Asset:ETH Lever:10x Type:short Entry price:3000.00");
}

#[test]
fn positions_are_rendered_with_fixed_decimals() {
    let mut p = position("BTC", PositionSide::Short, 7, 5);
    p.pnl_percentage = -1234;
    p.leverage = 0;
    assert_eq!(
        render_positions(&vec![p.clone()]),
        "Asset: BTC\nLeverage: 0x\nType: short\nEntry price: 0.05\nMark price: 44000.00\nPosition size: 0.0007\nPosition value: $22000.00\nPNL: -12.34%\n\n"
    );
    assert_eq!(render_positions(&vec![]), "");
    assert_eq!(render_title(&p), "Asset:BTC Lever:0x Type:short Entry price:0.05");
}

#[test]
fn the_first_trade_and_every_new_trade_are_reported() {
    let mut m = HyperliquidMonitor::new_with_notes("0xabc", 120, true, false, "desk");
    let first = m.observe_trade(trade("t1"), Some("2023-11-14 22:13:20".to_string())).unwrap();
    assert_eq!(first.message, "Started monitoring: desk");
    assert_eq!(
        first.details,
        "Initial monitoring data:\nUser: 0xabc\nLatest transaction:\nAsset: ETH\nSide: Buy\nPrice: 3000.5\nSize: 0.1\nTime: 2023-11-14 22:13:20\nTransaction ID: t1\n\nNotes: desk"
    );
    assert!(m.observe_trade(trade("t1"), None).is_none());
    let next = m.observe_trade(trade("t2"), None).unwrap();
    assert_eq!(
        next.message,
        "desk - New ETH Buy: Asset:ETH, Price:3000.5, Size:0.1, Time:1700000000000(Invalid timestamp)"
    );
    assert_eq!(
        next.details,
        "Changed content:\nUser: 0xabc\nAsset: ETH\nSide: Buy\nPrice: 3000.5\nSize: 0.1\nTime: 1700000000000(Invalid timestamp)\nTransaction ID: t2\n\nPrevious transaction ID: t1\n\nNotes: desk"
    );
    assert!(m.observe_trade(trade("t2"), None).is_none());
}

#[test]
fn the_latest_trade_is_read_from_the_feed() {
    let t = latest_trade(body(TRADES)).unwrap().unwrap();
    assert_eq!(t.tid, "t1");
    assert_eq!(t.asset, "ETH");
    assert_eq!(t.side, "Buy");
    assert_eq!(t.price, "3000.5");
    assert_eq!(t.size, "0.1");
    assert_eq!(t.time, 1700000000000);
    let t = latest_trade(body(r#"[{"tid":"t9","side":"A","time":"soon"}]"#)).unwrap().unwrap();
    assert_eq!(t.tid, "t9");
    assert_eq!(t.asset, "Unknown");
    assert_eq!(t.side, "Sell");
    assert_eq!(t.price, "0");
    assert_eq!(t.size, "0");
    assert_eq!(t.time, 0);
    assert!(latest_trade(body("[]")).unwrap().is_none());
}

#[test]
fn a_feed_that_cannot_be_read_is_an_error() {
    match latest_trade(body(r#"{"fills":[]}"#)) {
        Err(FetchError::Parse(reason)) => {
            assert_eq!(reason, "API returned data format is incorrect")
        }
        other => panic!("unexpected: {:?}", other),
    }
    match latest_trade(body(r#"[{"tid":17}]"#)) {
        Err(FetchError::Extraction(reason)) => {
            assert_eq!(reason, "Transaction ID format is incorrect")
        }
        other => panic!("unexpected: {:?}", other),
    }
    match latest_trade(body("[")) {
        Err(FetchError::Parse(reason)) => assert!(!reason.is_empty()),
        other => panic!("unexpected: {:?}", other),
    }
    match latest_trade(FetchReply::Failed("down".to_string())) {
        Err(FetchError::Network(reason)) => assert_eq!(reason, "down"),
        other => panic!("unexpected: {:?}", other),
    }
    match latest_trade(FetchReply::Status(429)) {
        Err(FetchError::Status(429)) => {}
        other => panic!("unexpected: {:?}", other),
    }
}

#[test]
fn the_check_of_the_trades_keeps_the_identifier() {
    let mut m = HyperliquidMonitor::new("0xabc", 120, true, false);
    let first = m.check_spot_trades(body(TRADES)).unwrap().unwrap();
    assert_eq!(first.message, "Started monitoring: 0xabc");
    assert!(first.details.contains("Asset: ETH\nSide: Buy\nPrice: 3000.5\nSize: 0.1\nTime: "));
    assert!(first.details.ends_with("\nTransaction ID: t1\n\nNotes: 0xabc"));
    assert!(m.check_spot_trades(body(TRADES)).unwrap().is_none());
    assert!(m.check_spot_trades(body("[]")).unwrap().is_none());
    assert!(m.check_spot_trades(FetchReply::Status(500)).is_err());
    let next = m.check_spot_trades(body(r#"[{"tid":"t2","asset":"BTC","side":"S"}]"#)).unwrap().unwrap();
    assert!(next.message.starts_with("0xabc - New BTC Sell: Asset:BTC, Price:0, Size:0, Time:"));
    assert!(next.details.contains("\nTransaction ID: t2\n\nPrevious transaction ID: t1\n"));
    let mut off = HyperliquidMonitor::new("0xabc", 120, false, true);
    assert!(off.check_spot_trades(body(TRADES)).unwrap().is_none());
    assert!(off.check_spot_trades(FetchReply::Status(500)).unwrap().is_none());
}

#[test]
fn contract_trades_are_recorded_in_silence() {
    let mut m = HyperliquidMonitor::new("0xabc", 120, false, true);
    assert!(m.check_contract_trades(body(TRADES)).unwrap().is_none());
    assert!(m.check_contract_trades(body(r#"[{"tid":"t2"}]"#)).unwrap().is_none());
    assert!(m.check_contract_trades(body("{}")).is_err());
    let mut off = HyperliquidMonitor::new("0xabc", 120, true, false);
    assert!(off.check_contract_trades(body("{}")).unwrap().is_none());
}

#[test]
fn positions_are_read_from_the_account_state() {
    let state = r#"{"assetPositions":[
        {"coin":"BTC","position":{"szi":"-0.5","entryPx":"43000.5"},"markPx":"44000","leverage":"10"},
        {"coin":"ETH"},
        {"position":{"szi":7}},
        {"coin":"SOL","position":{"szi":"0.0","entryPx":"1"},"markPx":"2","leverage":"3"}
    ],"time":1}"#;
    let raw = parse_positions(state);
    assert_eq!(raw.len(), 3);
    assert_eq!(raw[0].coin, "BTC");
    assert_eq!(raw[0].szi, "-0.5");
    assert_eq!(raw[0].entry_px, "43000.5");
    assert_eq!(raw[0].mark_px, "44000");
    assert_eq!(raw[0].leverage, "10");
    assert_eq!(raw[1].coin, "Unknown");
    assert_eq!(raw[1].szi, "0");
    assert_eq!(raw[1].entry_px, "0");
    assert_eq!(raw[1].mark_px, "0");
    assert_eq!(raw[1].leverage, "0");
    assert_eq!(raw[2].coin, "SOL");
    assert_eq!(raw[2].szi, "0.0");
    assert!(parse_positions(r#"{"assetPositions":{"coin":"BTC"}}"#).is_empty());
    assert!(parse_positions(r#"{"other":[]}"#).is_empty());
    assert!(parse_positions("no json").is_empty());
    assert!(parse_positions(r#"{"assetPositions":[]}"#).is_empty());
}

#[test]
fn a_check_asks_for_the_trades_first_and_then_for_the_positions() {
    let mut m = HyperliquidMonitor::new("0xabc", 120, true, true);
    match m.start_check() {
        Step::Fetch(FetchRequest::PostJson { url, fields }) => {
            assert_eq!(url, "https://api.hyperliquid.xyz/info");
            assert_eq!(
                fields,
                vec![
                    ("type".to_string(), "userFills".to_string()),
                    ("user".to_string(), "0xabc".to_string())
                ]
            );
        }
        other => panic!("unexpected: {:?}", other),
    }
    match m.resume_check(CheckEvent::Reply(body("[]"))) {
        Step::Fetch(FetchRequest::PostJson { url, fields }) => {
            assert_eq!(url, "https://api.hyperliquid.xyz/info");
            assert_eq!(
                fields,
                vec![
                    ("type".to_string(), "clearinghouseState".to_string()),
                    ("user".to_string(), "0xabc".to_string())
                ]
            );
        }
        other => panic!("unexpected: {:?}", other),
    }
    match m.resume_check(CheckEvent::Reply(body(
        r#"{"assetPositions":[{"coin":"BTC","position":{"szi":"1"}}]}"#,
    ))) {
        Step::Quantize(raw) => {
            assert_eq!(raw.len(), 1);
            assert_eq!(raw[0].coin, "BTC");
            assert_eq!(raw[0].szi, "1");
        }
        other => panic!("unexpected: {:?}", other),
    }
    match m.resume_check(CheckEvent::Numbers(vec![
        numbers("BTC", 10000, 100, 150),
        numbers("ETH", 0, 100, 150),
    ])) {
        Step::Done(Ok(Some(change))) => {
            assert_eq!(change.message, "Started monitoring: 0xabc");
            assert_eq!(
                change.details,
                "User's current positions:\n\nAsset: BTC\nLeverage: 5x\nType: long\nEntry price: 1.00\nMark price: 1.50\nPosition size: 1.0000\nPosition value: $1.50\nPNL: 50.00%\nView more information: @https://hyperdash.info/trader/0xabc\n\nNotes: 0xabc"
            );
        }
        other => panic!("unexpected: {:?}", other),
    }
}

#[test]
fn a_change_in_the_trades_ends_the_check() {
    let mut m = HyperliquidMonitor::new("0xabc", 120, true, true);
    assert!(matches!(m.start_check(), Step::Fetch(_)));
    match m.resume_check(CheckEvent::Reply(body(TRADES))) {
        Step::Done(Ok(Some(change))) => assert_eq!(change.message, "Started monitoring: 0xabc"),
        other => panic!("unexpected: {:?}", other),
    }
    assert!(matches!(m.start_check(), Step::Fetch(_)));
    assert!(matches!(m.resume_check(CheckEvent::Reply(body(TRADES))), Step::Fetch(_)));
    assert!(matches!(
        m.resume_check(CheckEvent::Reply(body(r#"{"assetPositions":[]}"#))),
        Step::Quantize(_)
    ));
    match m.resume_check(CheckEvent::Numbers(vec![])) {
        Step::Done(Ok(Some(change))) => {
            assert!(change.details.contains("No active positions currently"))
        }
        other => panic!("unexpected: {:?}", other),
    }
}

#[test]
fn errors_and_stray_events_end_the_check() {
    let mut m = HyperliquidMonitor::new("0xabc", 120, true, true);
    assert!(matches!(m.start_check(), Step::Fetch(_)));
    assert!(matches!(
        m.resume_check(CheckEvent::Reply(FetchReply::Status(502))),
        Step::Done(Err(FetchError::Status(502)))
    ));
    assert!(matches!(m.resume_check(CheckEvent::Reply(body("[]"))), Step::Done(Ok(None))));
    assert!(matches!(m.start_check(), Step::Fetch(_)));
    assert!(matches!(m.resume_check(CheckEvent::Numbers(vec![])), Step::Done(Ok(None))));
    assert!(matches!(m.start_check(), Step::Fetch(_)));
    assert!(matches!(m.resume_check(CheckEvent::Reply(body("[]"))), Step::Fetch(_)));
    assert!(matches!(
        m.resume_check(CheckEvent::Reply(body("not json"))),
        Step::Done(Err(FetchError::Parse(_)))
    ));
    assert!(matches!(m.start_check(), Step::Fetch(_)));
    assert!(matches!(m.resume_check(CheckEvent::Reply(body("[]"))), Step::Fetch(_)));
    assert!(matches!(
        m.resume_check(CheckEvent::Reply(FetchReply::Failed("x".to_string()))),
        Step::Done(Err(FetchError::Network(_)))
    ));
}

#[test]
fn parts_that_are_not_watched_are_passed_over() {
    let mut none = HyperliquidMonitor::new("0xabc", 120, false, false);
    assert!(matches!(none.start_check(), Step::Done(Ok(None))));
    let mut positions_only = HyperliquidMonitor::new("0xabc", 120, false, true);
    match positions_only.start_check() {
        Step::Fetch(FetchRequest::PostJson { fields, .. }) => {
            assert_eq!(fields[0].1, "clearinghouseState")
        }
        other => panic!("unexpected: {:?}", other),
    }
    let mut trades_only = HyperliquidMonitor::new("0xabc", 120, true, false);
    assert!(matches!(trades_only.start_check(), Step::Fetch(_)));
    assert!(matches!(
        trades_only.resume_check(CheckEvent::Reply(body("[]"))),
        Step::Done(Ok(None))
    ));
}

#[test]
fn names_notes_and_times_of_an_account_monitor() {
    let mut m = HyperliquidMonitor::new_with_notes("0xabc", 77, true, true, "  ");
    assert_eq!(m.get_notes(), "0xabc");
    assert_eq!(m.get_name(), "Hyperliquid monitor for 0xabc");
    assert_eq!(m.interval(), 77);
    m.set_notes("desk");
    assert_eq!(m.get_notes(), "desk");
    assert_eq!(render_trade_time(5, Some("then".to_string())), "then");
    assert_eq!(render_trade_time(5, None), "5(Invalid timestamp)");
    assert_eq!(format_timestamp(u64::MAX), "18446744073709551615(Invalid timestamp)");
    let shown = format_timestamp(1700000000000);
    assert_eq!(shown.len(), 19);
    assert!(shown.starts_with("2023-11-1"));
}

#[test]
fn numbers_of_size_zero_describe_no_position() {
    assert!(position_from(&numbers("BTC", 0, 100, 200)).is_none());
    let ps = positions_from(&vec![
        numbers("A", 0, 1, 1),
        numbers("B", 5, 1, 1),
        numbers("C", 0, 1, 1),
        numbers("D", -5, 1, 1),
    ]);
    assert_eq!(ps.len(), 2);
    assert_eq!(ps[0].asset, "B");
    assert_eq!(ps[0].position_type, PositionSide::Long);
    assert_eq!(ps[1].asset, "D");
    assert_eq!(ps[1].position_type, PositionSide::Short);
    assert!(positions_from(&vec![]).is_empty());
}

#[test]
fn value_and_profit_follow_from_size_and_prices() {
    // half a coin, bought at 43000.50, now at 44000.00
    let p = position_from(&numbers("BTC", 5000, 4300050, 4400000)).unwrap();
    assert_eq!(p.position_type, PositionSide::Long);
    assert_eq!(p.size, 5000);
    assert_eq!(p.leverage, 5);
    assert_eq!(p.entry_price, 4300050);
    assert_eq!(p.mark_price, 4400000);
    assert_eq!(p.position_value, 2200000);
    // paid 21500.25, gained 499.75: 2.3244 percent
    assert_eq!(p.pnl_percentage, 232);
    let short = position_from(&numbers("BTC", -5000, 4300050, 4400000)).unwrap();
    assert_eq!(short.position_type, PositionSide::Short);
    assert_eq!(short.size, 5000);
    assert_eq!(short.position_value, 2200000);
    assert_eq!(short.pnl_percentage, -232);
    let won = position_from(&numbers("BTC", -20000, 10000, 7500)).unwrap();
    assert_eq!(won.position_value, 15000);
    assert_eq!(won.pnl_percentage, 2500);
    let lost = position_from(&numbers("BTC", 20000, 10000, 7500)).unwrap();
    assert_eq!(lost.pnl_percentage, -2500);
}

#[test]
fn values_are_rounded_and_capped() {
    // 0.0001 of a coin at 0.49 is worth 0.000049: nothing; at 0.50 one hundredth
    assert_eq!(position_from(&numbers("X", 1, 0, 4999)).unwrap().position_value, 0);
    assert_eq!(position_from(&numbers("X", 1, 0, 5000)).unwrap().position_value, 1);
    // nothing was paid: no share of it can be won or lost
    assert_eq!(position_from(&numbers("X", 1, 0, 5000)).unwrap().pnl_percentage, 0);
    let huge = position_from(&numbers("X", i64::MIN, 1, u64::MAX)).unwrap();
    assert_eq!(huge.position_type, PositionSide::Short);
    assert_eq!(huge.size, 9223372036854775808);
    assert_eq!(huge.position_value, u64::MAX);
    assert_eq!(huge.pnl_percentage, -i64::MAX);
    let huge = position_from(&numbers("X", i64::MAX, 1, u64::MAX)).unwrap();
    assert_eq!(huge.pnl_percentage, i64::MAX);
    // a third of a percent: 0.33
    assert_eq!(position_from(&numbers("X", 10000, 30000, 30100)).unwrap().pnl_percentage, 33);
    // two thirds of a percent: 0.67
    assert_eq!(position_from(&numbers("X", 10000, 30000, 30200)).unwrap().pnl_percentage, 67);
}

#[test]
fn a_whole_check_follows_the_positions_where_the_trades_are_quiet() {
    let mut m = HyperliquidMonitor::new_with_notes("0xabc", 120, true, true, "desk");
    let start = m.check(body("[]"), vec![]).unwrap().unwrap();
    assert_eq!(start.message, "Started monitoring: desk");
    assert!(start.details.contains("No active positions currently"));
    assert!(m.check(body("[]"), vec![]).unwrap().is_none());
    let opened =
        m.check(body("[]"), vec![position("BTC", PositionSide::Long, 5000, 4300050)]).unwrap().unwrap();
    assert_eq!(opened.message, "desk - Asset:BTC Lever:10x Type:long Entry price:43000.50");
    let closed = m.check(body("[]"), vec![]).unwrap().unwrap();
    assert_eq!(closed.message, "No active positions - desk");
    assert!(closed.details.contains("No active positions currently"));
    assert!(m.check(body("[]"), vec![]).unwrap().is_none());
}

#[test]
fn a_whole_check_stops_at_a_change_in_the_trades() {
    let mut m = HyperliquidMonitor::new("0xabc", 120, true, true);
    let first = m.check(body(TRADES), vec![position("BTC", PositionSide::Long, 1, 1)]).unwrap().unwrap();
    assert!(first.details.starts_with("Initial monitoring data:"));
    let second = m.check(body(TRADES), vec![position("BTC", PositionSide::Long, 1, 1)]).unwrap().unwrap();
    assert!(second.details.starts_with("User's current positions:"));
    assert!(m.check(body(TRADES), vec![position("BTC", PositionSide::Long, 1, 1)]).unwrap().is_none());
    assert!(m.check(FetchReply::Status(500), vec![]).is_err());
    assert!(m.check(body(TRADES), vec![position("BTC", PositionSide::Long, 1, 1)]).unwrap().is_none());
    let mut positions_only = HyperliquidMonitor::new("0xabc", 120, false, true);
    assert!(positions_only.check(FetchReply::Status(500), vec![]).unwrap().is_some());
    let mut nothing = HyperliquidMonitor::new("0xabc", 120, false, false);
    assert!(nothing.check(body(TRADES), vec![]).unwrap().is_none());
}
