//! Watches the trades and the open positions of one exchange account.

use crate::decimal::{decimal, push_decimal};
use crate::json::{
    array_len_at, has_value_at, json_array_len_at, json_error, json_has, json_str_at, json_u64_at,
    parse_error, str_at, u64_at,
};
use crate::monitors::{
    pairs_view, result_view, Change, ChangeView, CheckEvent, CheckEventView, CheckResult,
    FetchError, FetchErrorView, FetchReply, FetchReplyView, FetchRequest, FetchRequestView,
    Monitor, Step, StepView,
};
use crate::monitors::positions::{
    calculate_positions_hash, fingerprint, position_blocks, position_title, positions_from,
    positions_of, positions_view, raw_view, render_positions, render_title, Fingerprint, KeyView,
    PositionInfo, PositionView, RawPosition, RawPositionView,
};
use crate::text::{blank, is_blank, opt_text, trim, trimmed};
use crate::utils::{local_time_for, local_time_of, time_shaped, LAST_PLAIN_SECOND};
use vstd::prelude::*;
use vstd::string::*;

verus! {

/// What a check is waiting for.
#[derive(Clone, Copy, Debug, PartialEq, Eq, Structural)]
pub enum CheckStage {
    /// No check is under way.
    Idle,
    /// The trades of the account were asked for.
    AwaitingTrades,
    /// The positions of the account were asked for.
    AwaitingPositions,
    /// The positions were read and are being turned into numbers.
    AwaitingNumbers,
}

/// Hyperliquid user transaction monitor, used to monitor user transaction activities
pub struct HyperliquidMonitor {
    /// Wallet address to monitor
    address: String,
    /// Monitoring interval (seconds)
    interval_secs: u64,
    /// Whether to monitor spot transactions
    monitor_spot: bool,
    /// Whether to monitor contract transactions
    monitor_contract: bool,
    /// Last detected spot transaction ID
    last_spot_trade_id: Option<String>,
    /// Last detected contract transaction ID
    last_contract_trade_id: Option<String>,
    /// Last positions fingerprint to detect position changes
    last_positions_hash: Option<Fingerprint>,
    /// User-provided notes/remarks
    notes: String,
    /// What the check under way is waiting for
    stage: CheckStage,
}

/// The state of a `HyperliquidMonitor`.
pub struct HyperliquidMonitorView {
    pub address: Seq<char>,
    pub interval_secs: u64,
    pub monitor_spot: bool,
    pub monitor_contract: bool,
    pub last_spot_trade_id: Option<Seq<char>>,
    pub last_contract_trade_id: Option<Seq<char>>,
    pub last_positions_hash: Option<Seq<KeyView>>,
    pub notes: Seq<char>,
    pub stage: CheckStage,
}

impl View for HyperliquidMonitor {
    type V = HyperliquidMonitorView;

    closed spec fn view(&self) -> HyperliquidMonitorView {
        HyperliquidMonitorView {
            address: self.address@,
            interval_secs: self.interval_secs,
            monitor_spot: self.monitor_spot,
            monitor_contract: self.monitor_contract,
            last_spot_trade_id: opt_text(self.last_spot_trade_id),
            last_contract_trade_id: opt_text(self.last_contract_trade_id),
            last_positions_hash: match self.last_positions_hash {
                Some(f) => Some(f@),
                None => None,
            },
            notes: self.notes@,
            stage: self.stage,
        }
    }
}

/// The latest trade of an account, as far as an alert shows it.
#[derive(Clone, Debug)]
pub struct TradeRecord {
    /// Transaction identifier
    pub tid: String,
    /// Asset name
    pub asset: String,
    /// "Buy" or "Sell"
    pub side: String,
    /// Price, as the feed writes it
    pub price: String,
    /// Size, as the feed writes it
    pub size: String,
    /// Time of the trade, in milliseconds
    pub time: u64,
}

/// What a `TradeRecord` holds.
pub struct TradeView {
    pub tid: Seq<char>,
    pub asset: Seq<char>,
    pub side: Seq<char>,
    pub price: Seq<char>,
    pub size: Seq<char>,
    pub time: u64,
}

impl View for TradeRecord {
    type V = TradeView;

    open spec fn view(&self) -> TradeView {
        TradeView {
            tid: self.tid@,
            asset: self.asset@,
            side: self.side@,
            price: self.price@,
            size: self.size@,
            time: self.time,
        }
    }
}

/// A text, or a stand-in where there is none.
pub open spec fn text_or(v: Option<Seq<char>>, fallback: Seq<char>) -> Seq<char> {
    match v {
        Some(t) => t,
        None => fallback,
    }
}

/// The first entry of a trade feed whose identifier is `tid`.
pub open spec fn trade_of(body: Seq<char>, tid: Seq<char>) -> TradeView {
    TradeView {
        tid,
        asset: text_or(json_str_at(body, "/0/asset"@), "Unknown"@),
        side: if json_str_at(body, "/0/side"@) == Some("B"@) {
            "Buy"@
        } else {
            "Sell"@
        },
        price: text_or(json_str_at(body, "/0/px"@), "0"@),
        size: text_or(json_str_at(body, "/0/sz"@), "0"@),
        time: match json_u64_at(body, "/0/time"@) {
            Some(t) => t,
            None => 0,
        },
    }
}

/// What an answer to the request for trades amounts to.
pub enum TradeFeed {
    /// Nothing can be read from the answer.
    Refused(FetchErrorView),
    /// The account has no trades.
    Empty,
    /// The latest trade of the account.
    Latest(TradeView),
}

/// What an answer to the request for trades amounts to.
pub open spec fn trade_feed(reply: FetchReplyView) -> TradeFeed {
    match reply {
        FetchReplyView::Failed(reason) => TradeFeed::Refused(FetchErrorView::Network(reason)),
        FetchReplyView::Status(code) => TradeFeed::Refused(FetchErrorView::Status(code)),
        FetchReplyView::Body(body) => match json_error(body) {
            Some(e) => TradeFeed::Refused(FetchErrorView::Parse(e)),
            None => match json_array_len_at(body, ""@) {
                None => TradeFeed::Refused(
                    FetchErrorView::Parse("API returned data format is incorrect"@),
                ),
                Some(n) => if n == 0 {
                    TradeFeed::Empty
                } else {
                    match json_str_at(body, "/0/tid"@) {
                        None => TradeFeed::Refused(
                            FetchErrorView::Extraction("Transaction ID format is incorrect"@),
                        ),
                        Some(tid) => TradeFeed::Latest(trade_of(body, tid)),
                    }
                },
            },
        },
    }
}

/// The time of a trade as an alert shows it, given its local time where the
/// machine has one.
pub open spec fn trade_time_text(time: u64, local: Option<Seq<char>>) -> Seq<char> {
    match local {
        Some(t) => t,
        None => decimal(time as nat) + "(Invalid timestamp)"@,
    }
}

/// The lines that describe a trade.
pub open spec fn trade_lines(trade: TradeView, time_text: Seq<char>) -> Seq<char> {
    "Asset: "@ + trade.asset + "\nSide: "@ + trade.side + "\nPrice: "@ + trade.price
        + "\nSize: "@ + trade.size + "\nTime: "@ + time_text + "\nTransaction ID: "@ + trade.tid
}

/// The change reported for the first trade that is seen.
pub open spec fn first_trade_change(
    pre: HyperliquidMonitorView,
    trade: TradeView,
    time_text: Seq<char>,
) -> ChangeView {
    ChangeView {
        message: "Started monitoring: "@ + pre.notes,
        details: "Initial monitoring data:\nUser: "@ + pre.address + "\nLatest transaction:\n"@
            + trade_lines(trade, time_text) + "\n\nNotes: "@ + pre.notes,
    }
}

/// The change reported for a trade other than the last one seen.
pub open spec fn new_trade_change(
    pre: HyperliquidMonitorView,
    trade: TradeView,
    last_id: Seq<char>,
    time_text: Seq<char>,
) -> ChangeView {
    ChangeView {
        message: pre.notes + " - New "@ + trade.asset + " "@ + trade.side + ": Asset:"@
            + trade.asset + ", Price:"@ + trade.price + ", Size:"@ + trade.size + ", Time:"@
            + time_text,
        details: "Changed content:\nUser: "@ + pre.address + "\n"@ + trade_lines(trade, time_text)
            + "\n\nPrevious transaction ID: "@ + last_id + "\n\nNotes: "@ + pre.notes,
    }
}

/// What one look at the latest trade reports.
pub open spec fn trade_observed(
    pre: HyperliquidMonitorView,
    trade: TradeView,
    local: Option<Seq<char>>,
) -> Option<ChangeView> {
    let time_text = trade_time_text(trade.time, local);
    match pre.last_spot_trade_id {
        None => Some(first_trade_change(pre, trade, time_text)),
        Some(last) => if last == trade.tid {
            None
        } else {
            Some(new_trade_change(pre, trade, last, time_text))
        },
    }
}

/// The state after one look at the latest trade.
pub open spec fn after_trade(pre: HyperliquidMonitorView, trade: TradeView) -> HyperliquidMonitorView {
    HyperliquidMonitorView { last_spot_trade_id: Some(trade.tid), ..pre }
}

/// What the check of the trades reports, given how the request ended and the
/// local time of the latest trade.
pub open spec fn spot_checked(
    pre: HyperliquidMonitorView,
    reply: FetchReplyView,
    local: Option<Seq<char>>,
) -> Result<Option<ChangeView>, FetchErrorView> {
    if !pre.monitor_spot {
        Ok(None)
    } else {
        match trade_feed(reply) {
            TradeFeed::Refused(e) => Err(e),
            TradeFeed::Empty => Ok(None),
            TradeFeed::Latest(trade) => Ok(trade_observed(pre, trade, local)),
        }
    }
}

/// What holds of the local time that a check of the trades draws, whatever
/// the time zone: where the check reads a latest trade, it is the local time
/// of that trade.
pub open spec fn spot_time_drawn(
    pre: HyperliquidMonitorView,
    reply: FetchReplyView,
    local: Option<Seq<char>>,
) -> bool {
    pre.monitor_spot ==> (trade_feed(reply) matches TradeFeed::Latest(trade) ==> local_time_for(
        trade.time,
        local,
    ))
}

/// What holds of the local time that a step of a check draws: the step that
/// takes the answer to the request for trades draws the one of their check.
pub open spec fn time_drawn(
    pre: HyperliquidMonitorView,
    event: CheckEventView,
    local: Option<Seq<char>>,
) -> bool {
    pre.stage == CheckStage::AwaitingTrades ==> (event matches CheckEventView::Reply(reply)
        ==> spot_time_drawn(pre, reply, local))
}

/// The state after the check of the trades.
pub open spec fn after_spot(pre: HyperliquidMonitorView, reply: FetchReplyView) -> HyperliquidMonitorView {
    if !pre.monitor_spot {
        pre
    } else {
        match trade_feed(reply) {
            TradeFeed::Latest(trade) => after_trade(pre, trade),
            _ => pre,
        }
    }
}

/// The state after the silent check of the contract trades: the latest
/// identifier is recorded and nothing is reported.
pub open spec fn after_contract_trades(
    pre: HyperliquidMonitorView,
    reply: FetchReplyView,
) -> HyperliquidMonitorView {
    if !pre.monitor_contract {
        pre
    } else {
        match trade_feed(reply) {
            TradeFeed::Latest(trade) => HyperliquidMonitorView {
                last_contract_trade_id: Some(trade.tid),
                ..pre
            },
            _ => pre,
        }
    }
}

/// What the silent check of the contract trades returns.
pub open spec fn contract_trades_checked(
    pre: HyperliquidMonitorView,
    reply: FetchReplyView,
) -> Result<Option<ChangeView>, FetchErrorView> {
    if !pre.monitor_contract {
        Ok(None)
    } else {
        match trade_feed(reply) {
            TradeFeed::Refused(e) => Err(e),
            _ => Ok(None),
        }
    }
}

/// The closing lines of every report on positions.
pub open spec fn report_tail(pre: HyperliquidMonitorView) -> Seq<char> {
    "View more information: @https://hyperdash.info/trader/"@ + pre.address + "\n\nNotes: "@
        + pre.notes
}

/// The change of a first look that finds no open position.
pub open spec fn start_flat(pre: HyperliquidMonitorView) -> ChangeView {
    ChangeView {
        message: "Started monitoring: "@ + pre.notes,
        details: "Started monitoring user: "@ + pre.address
            + "\n\nNo active positions currently\n\n"@ + report_tail(pre),
    }
}

/// The change of a first look that finds open positions.
pub open spec fn start_holding(pre: HyperliquidMonitorView, ps: Seq<PositionView>) -> ChangeView {
    ChangeView {
        message: "Started monitoring: "@ + pre.notes,
        details: "User's current positions:\n\n"@ + trimmed(position_blocks(ps)) + "\n"@
            + report_tail(pre),
    }
}

/// The change of a look that finds every position closed.
pub open spec fn closed_all(pre: HyperliquidMonitorView) -> ChangeView {
    ChangeView {
        message: "No active positions - "@ + pre.notes,
        details: "User: "@ + pre.address + "\n\nNo active positions currently\n\n"@ + report_tail(
            pre,
        ),
    }
}

/// The change of a look that finds other positions than before.
pub open spec fn holdings_changed(pre: HyperliquidMonitorView, ps: Seq<PositionView>) -> ChangeView {
    ChangeView {
        message: pre.notes + " - "@ + position_title(ps[0]),
        details: "User position changes:\n\n"@ + trimmed(position_blocks(ps)) + "\n"@
            + report_tail(pre),
    }
}

/// What one look at the open positions reports.
pub open spec fn positions_observed(pre: HyperliquidMonitorView, ps: Seq<PositionView>) -> Option<
    ChangeView,
> {
    if !pre.monitor_contract {
        None
    } else {
        match pre.last_positions_hash {
            None => Some(
                if ps.len() == 0 {
                    start_flat(pre)
                } else {
                    start_holding(pre, ps)
                },
            ),
            Some(last) => if last == fingerprint(ps) {
                None
            } else {
                Some(
                    if ps.len() == 0 {
                        closed_all(pre)
                    } else {
                        holdings_changed(pre, ps)
                    },
                )
            },
        }
    }
}

/// The state after one look at the open positions.
pub open spec fn after_positions(
    pre: HyperliquidMonitorView,
    ps: Seq<PositionView>,
) -> HyperliquidMonitorView {
    if !pre.monitor_contract {
        pre
    } else {
        HyperliquidMonitorView { last_positions_hash: Some(fingerprint(ps)), ..pre }
    }
}

/// What one check reports, given how the request for trades ended, the
/// positions of the account and the local time of the latest trade: the
/// first of the two looks that reports a change decides. Behind a change in
/// the trades, and behind an error, the positions are not looked at.
pub open spec fn checked(
    pre: HyperliquidMonitorView,
    trades: FetchReplyView,
    positions: Seq<PositionView>,
    local: Option<Seq<char>>,
) -> Result<Option<ChangeView>, FetchErrorView> {
    match spot_checked(pre, trades, local) {
        Ok(None) => Ok(positions_observed(after_spot(pre, trades), positions)),
        other => other,
    }
}

/// The state after one check: the trades leave their identifier, and the
/// positions leave their fingerprint where they were looked at.
pub open spec fn after_check(
    pre: HyperliquidMonitorView,
    trades: FetchReplyView,
    positions: Seq<PositionView>,
) -> HyperliquidMonitorView {
    match spot_checked(pre, trades, None) {
        Ok(None) => after_positions(after_spot(pre, trades), positions),
        _ => after_spot(pre, trades),
    }
}

/// Where entry `i` of the position list keeps the member `tail`.
pub open spec fn position_pointer(i: nat, tail: Seq<char>) -> Seq<char> {
    "/assetPositions/"@ + decimal(i) + tail
}

/// Entry `i` of the position list, where it describes a position.
pub open spec fn raw_position_at(body: Seq<char>, i: nat) -> Option<RawPositionView> {
    if json_has(body, position_pointer(i, "/position"@)) {
        Some(
            RawPositionView {
                coin: text_or(json_str_at(body, position_pointer(i, "/coin"@)), "Unknown"@),
                szi: text_or(json_str_at(body, position_pointer(i, "/position/szi"@)), "0"@),
                entry_px: text_or(
                    json_str_at(body, position_pointer(i, "/position/entryPx"@)),
                    "0"@,
                ),
                mark_px: text_or(json_str_at(body, position_pointer(i, "/markPx"@)), "0"@),
                leverage: text_or(json_str_at(body, position_pointer(i, "/leverage"@)), "0"@),
            },
        )
    } else {
        None
    }
}

/// The first `n` entries of the position list that describe a position.
pub open spec fn raw_positions_upto(body: Seq<char>, n: nat) -> Seq<RawPositionView>
    decreases n,
{
    if n == 0 {
        Seq::empty()
    } else {
        let rest = raw_positions_upto(body, (n - 1) as nat);
        match raw_position_at(body, (n - 1) as nat) {
            Some(p) => rest.push(p),
            None => rest,
        }
    }
}

/// The positions that an account state lists; none where it has no list.
pub open spec fn raw_positions(body: Seq<char>) -> Seq<RawPositionView> {
    match json_array_len_at(body, "/assetPositions"@) {
        Some(n) => raw_positions_upto(body, n),
        None => Seq::empty(),
    }
}

/// The address that both requests are sent to.
pub open spec fn info_url() -> Seq<char> {
    "https://api.hyperliquid.xyz/info"@
}

/// The request for the trades of the account.
pub open spec fn trades_request(pre: HyperliquidMonitorView) -> FetchRequestView {
    FetchRequestView::PostJson {
        url: info_url(),
        fields: seq![("type"@, "userFills"@), ("user"@, pre.address)],
    }
}

/// The request for the state of the account, which lists its positions.
pub open spec fn positions_request(pre: HyperliquidMonitorView) -> FetchRequestView {
    FetchRequestView::PostJson {
        url: info_url(),
        fields: seq![("type"@, "clearinghouseState"@), ("user"@, pre.address)],
    }
}

/// How the check of the positions begins: with the request for them, or with
/// the end of the check where positions are not watched.
pub open spec fn positions_begun(pre: HyperliquidMonitorView) -> (CheckStage, StepView) {
    if pre.monitor_contract {
        (CheckStage::AwaitingPositions, StepView::Fetch(positions_request(pre)))
    } else {
        (CheckStage::Idle, StepView::Done(Ok(None)))
    }
}

/// How a check begins: trades first, then positions.
pub open spec fn started(pre: HyperliquidMonitorView) -> (CheckStage, StepView) {
    if pre.monitor_spot {
        (CheckStage::AwaitingTrades, StepView::Fetch(trades_request(pre)))
    } else {
        positions_begun(pre)
    }
}

/// How a check goes on after `event`: the state it leaves and the next step.
/// A change in the trades ends the check, so that at most one change is
/// reported per check; the positions are then compared in the next one.
pub open spec fn resumed(
    pre: HyperliquidMonitorView,
    event: CheckEventView,
    local: Option<Seq<char>>,
) -> (HyperliquidMonitorView, StepView) {
    match (pre.stage, event) {
        (CheckStage::AwaitingTrades, CheckEventView::Reply(reply)) => {
            let post = after_spot(pre, reply);
            match spot_checked(pre, reply, local) {
                Ok(None) => (
                    HyperliquidMonitorView { stage: positions_begun(post).0, ..post },
                    positions_begun(post).1,
                ),
                other => (
                    HyperliquidMonitorView { stage: CheckStage::Idle, ..post },
                    StepView::Done(other),
                ),
            }
        },
        (CheckStage::AwaitingPositions, CheckEventView::Reply(reply)) => match reply {
            FetchReplyView::Failed(reason) => (
                HyperliquidMonitorView { stage: CheckStage::Idle, ..pre },
                StepView::Done(Err(FetchErrorView::Network(reason))),
            ),
            FetchReplyView::Status(code) => (
                HyperliquidMonitorView { stage: CheckStage::Idle, ..pre },
                StepView::Done(Err(FetchErrorView::Status(code))),
            ),
            FetchReplyView::Body(body) => match json_error(body) {
                Some(e) => (
                    HyperliquidMonitorView { stage: CheckStage::Idle, ..pre },
                    StepView::Done(Err(FetchErrorView::Parse(e))),
                ),
                None => (
                    HyperliquidMonitorView { stage: CheckStage::AwaitingNumbers, ..pre },
                    StepView::Quantize(raw_positions(body)),
                ),
            },
        },
        (CheckStage::AwaitingNumbers, CheckEventView::Numbers(ns)) => (
            HyperliquidMonitorView {
                stage: CheckStage::Idle,
                ..after_positions(pre, positions_of(ns))
            },
            StepView::Done(Ok(positions_observed(pre, positions_of(ns)))),
        ),
        _ => (HyperliquidMonitorView { stage: CheckStage::Idle, ..pre }, StepView::Done(Ok(None))),
    }
}

fn text_at_or(body: &str, pointer: &str, fallback: &str) -> (r: String)
    ensures
        r@ == text_or(json_str_at(body@, pointer@), fallback@),
{
    match str_at(body, pointer) {
        Some(t) => t,
        None => String::from_str(fallback),
    }
}

fn read_trade(body: &str, tid: String) -> (r: TradeRecord)
    ensures
        r@ == trade_of(body@, tid@),
{
    let asset = text_at_or(body, "/0/asset", "Unknown");
    let side = match str_at(body, "/0/side") {
        Some(s) => {
            if s == String::from_str("B") {
                String::from_str("Buy")
            } else {
                String::from_str("Sell")
            }
        },
        None => String::from_str("Sell"),
    };
    let price = text_at_or(body, "/0/px", "0");
    let size = text_at_or(body, "/0/sz", "0");
    let time = match u64_at(body, "/0/time") {
        Some(t) => t,
        None => 0,
    };
    TradeRecord { tid, asset, side, price, size, time }
}

/// The latest trade that an answer to the request for trades holds.
pub fn latest_trade(reply: FetchReply) -> (r: Result<Option<TradeRecord>, FetchError>)
    ensures
        match r {
            Ok(Some(trade)) => trade_feed(reply@) == TradeFeed::Latest(trade@),
            Ok(None) => trade_feed(reply@) == TradeFeed::Empty,
            Err(e) => trade_feed(reply@) == TradeFeed::Refused(e@),
        },
{
    match reply {
        FetchReply::Failed(reason) => Err(FetchError::Network(reason)),
        FetchReply::Status(code) => Err(FetchError::Status(code)),
        FetchReply::Body(body) => {
            if let Some(e) = parse_error(body.as_str()) {
                return Err(FetchError::Parse(e));
            }
            match array_len_at(body.as_str(), "") {
                None => Err(
                    FetchError::Parse(String::from_str("API returned data format is incorrect")),
                ),
                Some(n) => {
                    if n == 0 {
                        Ok(None)
                    } else {
                        match str_at(body.as_str(), "/0/tid") {
                            None => Err(
                                FetchError::Extraction(
                                    String::from_str("Transaction ID format is incorrect"),
                                ),
                            ),
                            Some(tid) => Ok(Some(read_trade(body.as_str(), tid))),
                        }
                    }
                },
            }
        },
    }
}

fn position_pointer_text(i: usize, tail: &str) -> (r: String)
    ensures
        r@ == position_pointer(i as nat, tail@),
{
    let mut p = String::from_str("/assetPositions/");
    push_decimal(&mut p, i as u64);
    p.append(tail);
    p
}

fn read_position(body: &str, i: usize) -> (r: Option<RawPosition>)
    ensures
        match r {
            Some(p) => raw_position_at(body@, i as nat) == Some(p@),
            None => raw_position_at(body@, i as nat) is None,
        },
{
    if has_value_at(body, position_pointer_text(i, "/position").as_str()) {
        let coin = text_at_or(body, position_pointer_text(i, "/coin").as_str(), "Unknown");
        let szi = text_at_or(body, position_pointer_text(i, "/position/szi").as_str(), "0");
        let entry_px = text_at_or(
            body,
            position_pointer_text(i, "/position/entryPx").as_str(),
            "0",
        );
        let mark_px = text_at_or(body, position_pointer_text(i, "/markPx").as_str(), "0");
        let leverage = text_at_or(body, position_pointer_text(i, "/leverage").as_str(), "0");
        Some(RawPosition { coin, szi, entry_px, mark_px, leverage })
    } else {
        None
    }
}

/// Helper function: read the positions that an account state lists. An entry
/// without a position is left out; a member that is missing gets a stand-in.
pub fn parse_positions(body: &str) -> (r: Vec<RawPosition>)
    ensures
        raw_view(r@) == raw_positions(body@),
{
    let mut positions: Vec<RawPosition> = Vec::new();
    match array_len_at(body, "/assetPositions") {
        None => {
            assert(raw_view(positions@) =~= Seq::<RawPositionView>::empty());
        },
        Some(n) => {
            let mut i: usize = 0;
            assert(raw_view(positions@) =~= Seq::<RawPositionView>::empty());
            while i < n
                invariant
                    i <= n,
                    raw_view(positions@) == raw_positions_upto(body@, i as nat),
                decreases n - i,
            {
                let ghost before = positions@;
                match read_position(body, i) {
                    Some(p) => {
                        positions.push(p);
                        assert(raw_view(positions@) =~= raw_view(before).push(p@));
                    },
                    None => {},
                }
                i += 1;
            }
        },
    }
    positions
}

/// Helper function: the time of a trade as an alert shows it.
pub fn render_trade_time(time: u64, local: Option<String>) -> (r: String)
    ensures
        r@ == trade_time_text(time, opt_text(local)),
{
    match local {
        Some(t) => t,
        None => {
            let mut s = String::new();
            push_decimal(&mut s, time);
            s.append("(Invalid timestamp)");
            assert(s@ =~= decimal(time as nat) + "(Invalid timestamp)"@);
            s
        },
    }
}

/// Helper function: Format timestamp. The text is the local time of the
/// timestamp, which the machine decides, or the timestamp itself marked as
/// invalid where the machine has no time for it.
pub fn format_timestamp(timestamp: u64) -> (r: String)
    ensures
        exists|local: Option<Seq<char>>|
            local_time_for(timestamp, local) && r@ == trade_time_text(timestamp, local),
        timestamp / 1000 <= LAST_PLAIN_SECOND ==> time_shaped(r@),
        timestamp > i64::MAX ==> r@ == trade_time_text(timestamp, None),
{
    let local = local_time_of(timestamp);
    let ghost witness = opt_text(local);
    let r = render_trade_time(timestamp, local);
    assert(local_time_for(timestamp, witness) && r@ == trade_time_text(timestamp, witness));
    r
}

impl HyperliquidMonitor {
    /// Create a new Hyperliquid user transaction monitor. The address serves
    /// as the note.
    pub fn new(address: &str, interval_secs: u64, monitor_spot: bool, monitor_contract: bool) -> (r:
        Self)
        ensures
            r@ == (HyperliquidMonitorView {
                address: address@,
                interval_secs,
                monitor_spot,
                monitor_contract,
                last_spot_trade_id: None,
                last_contract_trade_id: None,
                last_positions_hash: None,
                notes: address@,
                stage: CheckStage::Idle,
            }),
    {
        HyperliquidMonitor {
            address: String::from_str(address),
            interval_secs,
            monitor_spot,
            monitor_contract,
            last_spot_trade_id: None,
            last_contract_trade_id: None,
            last_positions_hash: None,
            notes: String::from_str(address),
            stage: CheckStage::Idle,
        }
    }

    /// Create a new Hyperliquid user transaction monitor with notes. Blank
    /// notes leave the address as the note.
    pub fn new_with_notes(
        address: &str,
        interval_secs: u64,
        monitor_spot: bool,
        monitor_contract: bool,
        notes: &str,
    ) -> (r: Self)
        ensures
            r@ == (HyperliquidMonitorView {
                address: address@,
                interval_secs,
                monitor_spot,
                monitor_contract,
                last_spot_trade_id: None,
                last_contract_trade_id: None,
                last_positions_hash: None,
                notes: if blank(notes@) {
                    address@
                } else {
                    notes@
                },
                stage: CheckStage::Idle,
            }),
    {
        let mut monitor = Self::new(address, interval_secs, monitor_spot, monitor_contract);
        if !is_blank(notes) {
            monitor.notes = String::from_str(notes);
        }
        monitor
    }

    /// Set notes/remarks. Blank notes change nothing.
    pub fn set_notes(&mut self, notes: &str)
        ensures
            final(self)@ == (HyperliquidMonitorView {
                notes: if blank(notes@) {
                    old(self)@.notes
                } else {
                    notes@
                },
                ..old(self)@
            }),
    {
        if !is_blank(notes) {
            self.notes = String::from_str(notes);
        }
    }

    fn info_request(&self, kind: &str) -> (r: FetchRequest)
        ensures
            r@ == (FetchRequestView::PostJson {
                url: info_url(),
                fields: seq![("type"@, kind@), ("user"@, self@.address)],
            }),
    {
        let mut fields: Vec<(String, String)> = Vec::new();
        fields.push((String::from_str("type"), String::from_str(kind)));
        fields.push((String::from_str("user"), self.address.clone()));
        assert(pairs_view(fields@) =~= seq![("type"@, kind@), ("user"@, self@.address)]);
        FetchRequest::PostJson { url: String::from_str("https://api.hyperliquid.xyz/info"), fields }
    }

    /// The request for the trades of the account.
    pub fn get_spot_trades(&self) -> (r: FetchRequest)
        ensures
            r@ == trades_request(self@),
    {
        self.info_request("userFills")
    }

    /// The request for the contract trades of the account: the same feed as
    /// the one of the spot trades.
    pub fn get_contract_trades(&self) -> (r: FetchRequest)
        ensures
            r@ == trades_request(self@),
    {
        self.info_request("userFills")
    }

    /// The request for the state of the account, which lists its positions.
    pub fn get_contract_positions(&self) -> (r: FetchRequest)
        ensures
            r@ == positions_request(self@),
    {
        self.info_request("clearinghouseState")
    }

    fn push_trade_lines(out: &mut String, trade: &TradeRecord, time_text: &String)
        ensures
            final(out)@ == old(out)@ + trade_lines(trade@, time_text@),
    {
        out.append("Asset: ");
        out.append(trade.asset.as_str());
        out.append("\nSide: ");
        out.append(trade.side.as_str());
        out.append("\nPrice: ");
        out.append(trade.price.as_str());
        out.append("\nSize: ");
        out.append(trade.size.as_str());
        out.append("\nTime: ");
        out.append(time_text.as_str());
        out.append("\nTransaction ID: ");
        out.append(trade.tid.as_str());
        assert(final(out)@ =~= old(out)@ + trade_lines(trade@, time_text@));
    }

    /// One look at the latest trade of the account, given its local time where
    /// the machine has one: the first trade seen and every trade with another
    /// identifier than the last are reported, and the identifier is kept.
    pub fn observe_trade(&mut self, trade: TradeRecord, local: Option<String>) -> (r: Option<
        Change,
    >)
        ensures
            final(self)@ == after_trade(old(self)@, trade@),
            match r {
                Some(c) => trade_observed(old(self)@, trade@, opt_text(local)) == Some(c@),
                None => trade_observed(old(self)@, trade@, opt_text(local)) is None,
            },
    {
        let time_text = render_trade_time(trade.time, local);
        let change = match &self.last_spot_trade_id {
            Some(last_id) => {
                if *last_id != trade.tid {
                    let mut message = self.notes.clone();
                    message.append(" - New ");
                    message.append(trade.asset.as_str());
                    message.append(" ");
                    message.append(trade.side.as_str());
                    message.append(": Asset:");
                    message.append(trade.asset.as_str());
                    message.append(", Price:");
                    message.append(trade.price.as_str());
                    message.append(", Size:");
                    message.append(trade.size.as_str());
                    message.append(", Time:");
                    message.append(time_text.as_str());
                    let mut details = String::from_str("Changed content:\nUser: ");
                    details.append(self.address.as_str());
                    details.append("\n");
                    Self::push_trade_lines(&mut details, &trade, &time_text);
                    details.append("\n\nPrevious transaction ID: ");
                    details.append(last_id.as_str());
                    details.append("\n\nNotes: ");
                    details.append(self.notes.as_str());
                    Some(Change { message, details })
                } else {
                    None
                }
            },
            None => {
                let mut message = String::from_str("Started monitoring: ");
                message.append(self.notes.as_str());
                let mut details = String::from_str("Initial monitoring data:\nUser: ");
                details.append(self.address.as_str());
                details.append("\nLatest transaction:\n");
                Self::push_trade_lines(&mut details, &trade, &time_text);
                details.append("\n\nNotes: ");
                details.append(self.notes.as_str());
                Some(Change { message, details })
            },
        };
        self.last_spot_trade_id = Some(trade.tid);
        change
    }

    /// Check user spot transaction changes, given how the request for the
    /// trades ended. What is returned is fixed up to the local time of the
    /// trade, which the machine decides.
    pub fn check_spot_trades(&mut self, reply: FetchReply) -> (r: CheckResult)
        ensures
            final(self)@ == after_spot(old(self)@, reply@),
            exists|local: Option<Seq<char>>|
                spot_time_drawn(old(self)@, reply@, local) && result_view(r) == spot_checked(
                    old(self)@,
                    reply@,
                    local,
                ),
    {
        if !self.monitor_spot {
            assert(spot_time_drawn(old(self)@, reply@, None));
            assert(result_view(Ok(None)) == spot_checked(old(self)@, reply@, None));
            return Ok(None);
        }
        match latest_trade(reply) {
            Err(e) => {
                assert(spot_time_drawn(old(self)@, reply@, None));
                assert(result_view(Err(e)) == spot_checked(old(self)@, reply@, None));
                Err(e)
            },
            Ok(None) => {
                assert(spot_time_drawn(old(self)@, reply@, None));
                assert(result_view(Ok(None)) == spot_checked(old(self)@, reply@, None));
                Ok(None)
            },
            Ok(Some(trade)) => {
                let local = local_time_of(trade.time);
                let ghost witness = opt_text(local);
                let r = Ok(self.observe_trade(trade, local));
                assert(spot_time_drawn(old(self)@, reply@, witness));
                assert(result_view(r) == spot_checked(old(self)@, reply@, witness));
                r
            },
        }
    }

    /// Check user contract transaction changes: the identifier of the latest
    /// trade is recorded and nothing is reported, since the positions are what
    /// is watched.
    pub fn check_contract_trades(&mut self, reply: FetchReply) -> (r: CheckResult)
        ensures
            final(self)@ == after_contract_trades(old(self)@, reply@),
            result_view(r) == contract_trades_checked(old(self)@, reply@),
    {
        if !self.monitor_contract {
            return Ok(None);
        }
        match latest_trade(reply) {
            Err(e) => Err(e),
            Ok(None) => Ok(None),
            Ok(Some(trade)) => {
                self.last_contract_trade_id = Some(trade.tid);
                Ok(None)
            },
        }
    }

    fn push_report_tail(&self, out: &mut String)
        ensures
            final(out)@ == old(out)@ + report_tail(self@),
    {
        out.append("View more information: @https://hyperdash.info/trader/");
        out.append(self.address.as_str());
        out.append("\n\nNotes: ");
        out.append(self.notes.as_str());
        assert(final(out)@ =~= old(out)@ + report_tail(self@));
    }

    /// Check user contract positions changes: the first look reports what the
    /// account holds, a later one reports a list with another fingerprint, and
    /// a list that became empty is reported as such.
    pub fn check_contract_positions(&mut self, positions: Vec<PositionInfo>) -> (r: Option<Change>)
        ensures
            final(self)@ == after_positions(old(self)@, positions_view(positions@)),
            match r {
                Some(c) => positions_observed(old(self)@, positions_view(positions@)) == Some(c@),
                None => positions_observed(old(self)@, positions_view(positions@)) is None,
            },
    {
        if !self.monitor_contract {
            return None;
        }
        let positions_hash = calculate_positions_hash(&positions);
        let ghost ps = positions_view(positions@);
        let first = self.last_positions_hash.is_none();
        let changed = match &self.last_positions_hash {
            None => true,
            Some(last_hash) => !last_hash.same(&positions_hash),
        };
        let change = if !changed {
            None
        } else if positions.len() == 0 {
            if first {
                let mut message = String::from_str("Started monitoring: ");
                message.append(self.notes.as_str());
                let mut details = String::from_str("Started monitoring user: ");
                details.append(self.address.as_str());
                details.append("\n\nNo active positions currently\n\n");
                self.push_report_tail(&mut details);
                Some(Change { message, details })
            } else {
                let mut message = String::from_str("No active positions - ");
                message.append(self.notes.as_str());
                let mut details = String::from_str("User: ");
                details.append(self.address.as_str());
                details.append("\n\nNo active positions currently\n\n");
                self.push_report_tail(&mut details);
                Some(Change { message, details })
            }
        } else {
            let blocks = render_positions(&positions);
            let mut details = if first {
                String::from_str("User's current positions:\n\n")
            } else {
                String::from_str("User position changes:\n\n")
            };
            details.append(trim(blocks.as_str()));
            details.append("\n");
            self.push_report_tail(&mut details);
            let message = if first {
                let mut m = String::from_str("Started monitoring: ");
                m.append(self.notes.as_str());
                m
            } else {
                let mut m = self.notes.clone();
                m.append(" - ");
                assert(ps[0] == positions@[0]@);
                m.append(render_title(&positions[0]).as_str());
                m
            };
            Some(Change { message, details })
        };
        self.last_positions_hash = Some(positions_hash);
        change
    }

    /// One check, given how the request for trades ended and the positions of
    /// the account: trades first, then positions, and at most one change. A
    /// part that is not watched is passed over, whatever is given for it.
    pub fn check(&mut self, trades: FetchReply, positions: Vec<PositionInfo>) -> (r: CheckResult)
        ensures
            final(self)@ == after_check(old(self)@, trades@, positions_view(positions@)),
            exists|local: Option<Seq<char>>|
                spot_time_drawn(old(self)@, trades@, local) && result_view(r) == checked(
                    old(self)@,
                    trades@,
                    positions_view(positions@),
                    local,
                ),
    {
        let ghost trades_view = trades@;
        let found = self.check_spot_trades(trades);
        let ghost local = choose|local: Option<Seq<char>>|
            spot_time_drawn(old(self)@, trades_view, local) && result_view(found)
                == spot_checked(old(self)@, trades_view, local);
        let r = match found {
            Ok(None) => Ok(self.check_contract_positions(positions)),
            other => other,
        };
        assert(result_view(r) == checked(
            old(self)@,
            trades_view,
            positions_view(positions@),
            local,
        ));
        r
    }

    fn begin_positions(&mut self) -> (r: Step)
        ensures
            final(self)@ == (HyperliquidMonitorView {
                stage: positions_begun(old(self)@).0,
                ..old(self)@
            }),
            r@ == positions_begun(old(self)@).1,
    {
        if self.monitor_contract {
            self.stage = CheckStage::AwaitingPositions;
            Step::Fetch(self.get_contract_positions())
        } else {
            self.stage = CheckStage::Idle;
            Step::Done(Ok(None))
        }
    }
}

impl Monitor for HyperliquidMonitor {
    open spec fn interval_secs(&self) -> u64 {
        self@.interval_secs
    }

    open spec fn name(&self) -> Seq<char> {
        "Hyperliquid monitor for "@ + self@.address
    }

    open spec fn notes(&self) -> Seq<char> {
        self@.notes
    }

    /// Begins a check: the trades come first, then the positions; a part that
    /// is not watched is passed over.
    fn start_check(&mut self) -> (r: Step)
        ensures
            final(self)@ == (HyperliquidMonitorView {
                stage: started(old(self)@).0,
                ..old(self)@
            }),
            r@ == started(old(self)@).1,
    {
        if self.monitor_spot {
            self.stage = CheckStage::AwaitingTrades;
            Step::Fetch(self.get_spot_trades())
        } else {
            self.begin_positions()
        }
    }

    /// Goes on with a check after the event that answers its last step. An
    /// event that answers no step ends the check with nothing reported.
    fn resume_check(&mut self, event: CheckEvent) -> (r: Step)
        ensures
            exists|local: Option<Seq<char>>|
                time_drawn(old(self)@, event@, local) && (final(self)@, r@) == resumed(
                    old(self)@,
                    event@,
                    local,
                ),
    {
        let stage = self.stage;
        match event {
            CheckEvent::Reply(reply) => {
                match stage {
                    CheckStage::AwaitingTrades => {
                        let ghost reply_view = reply@;
                        let result = self.check_spot_trades(reply);
                        let ghost local = choose|local: Option<Seq<char>>|
                            spot_time_drawn(old(self)@, reply_view, local) && result_view(result)
                                == spot_checked(old(self)@, reply_view, local);
                        let step = match result {
                            Ok(None) => self.begin_positions(),
                            other => {
                                self.stage = CheckStage::Idle;
                                Step::Done(other)
                            },
                        };
                        assert(time_drawn(old(self)@, event@, local));
                        assert((self@, step@) == resumed(old(self)@, event@, local));
                        step
                    },
                    CheckStage::AwaitingPositions => {
                        let step = match reply {
                            FetchReply::Failed(reason) => {
                                self.stage = CheckStage::Idle;
                                Step::Done(Err(FetchError::Network(reason)))
                            },
                            FetchReply::Status(code) => {
                                self.stage = CheckStage::Idle;
                                Step::Done(Err(FetchError::Status(code)))
                            },
                            FetchReply::Body(body) => {
                                match parse_error(body.as_str()) {
                                    Some(e) => {
                                        self.stage = CheckStage::Idle;
                                        Step::Done(Err(FetchError::Parse(e)))
                                    },
                                    None => {
                                        self.stage = CheckStage::AwaitingNumbers;
                                        Step::Quantize(parse_positions(body.as_str()))
                                    },
                                }
                            },
                        };
                        assert(time_drawn(old(self)@, event@, None) && (self@, step@) == resumed(
                            old(self)@,
                            event@,
                            None,
                        ));
                        step
                    },
                    _ => {
                        self.stage = CheckStage::Idle;
                        let step = Step::Done(Ok(None));
                        assert(time_drawn(old(self)@, event@, None) && (self@, step@) == resumed(
                            old(self)@,
                            event@,
                            None,
                        ));
                        step
                    },
                }
            },
            CheckEvent::Numbers(numbers) => {
                match stage {
                    CheckStage::AwaitingNumbers => {
                        let change = self.check_contract_positions(positions_from(&numbers));
                        self.stage = CheckStage::Idle;
                        let step = Step::Done(Ok(change));
                        assert(time_drawn(old(self)@, event@, None) && (self@, step@) == resumed(
                            old(self)@,
                            event@,
                            None,
                        ));
                        step
                    },
                    _ => {
                        self.stage = CheckStage::Idle;
                        let step = Step::Done(Ok(None));
                        assert(time_drawn(old(self)@, event@, None) && (self@, step@) == resumed(
                            old(self)@,
                            event@,
                            None,
                        ));
                        step
                    },
                }
            },
        }
    }

    /// Monitoring interval (seconds).
    fn interval(&self) -> (r: u64)
        ensures
            r == self@.interval_secs,
    {
        self.interval_secs
    }

    /// Name of the monitor, for notifications.
    fn get_name(&self) -> (r: String)
        ensures
            r@ == "Hyperliquid monitor for "@ + self@.address,
    {
        let mut s = String::from_str("Hyperliquid monitor for ");
        s.append(self.address.as_str());
        s
    }

    /// The notes that prefix every alert of this monitor.
    fn get_notes(&self) -> (r: String)
        ensures
            r@ == self@.notes,
    {
        self.notes.clone()
    }
}

/// A change in the trades ends the check before the positions are looked
/// at: it alone is reported, and the fingerprint of the positions stays as it
/// was, so that a change in the positions is found by the next check.
pub proof fn law_trades_take_precedence(
    pre: HyperliquidMonitorView,
    reply: FetchReplyView,
    local: Option<Seq<char>>,
    change: ChangeView,
)
    requires
        pre.stage == CheckStage::AwaitingTrades,
        spot_checked(pre, reply, local) == Ok::<Option<ChangeView>, FetchErrorView>(Some(change)),
    ensures
        resumed(pre, CheckEventView::Reply(reply), local).1 == StepView::Done(Ok(Some(change))),
        resumed(pre, CheckEventView::Reply(reply), local).0.stage == CheckStage::Idle,
        resumed(pre, CheckEventView::Reply(reply), local).0.last_positions_hash
            == pre.last_positions_hash,
{
}

/// Where the trades show nothing new, the check goes on to the positions
/// where they are watched, and ends with nothing to report where they are not.
pub proof fn law_quiet_trades_lead_to_positions(
    pre: HyperliquidMonitorView,
    reply: FetchReplyView,
    local: Option<Seq<char>>,
)
    requires
        pre.stage == CheckStage::AwaitingTrades,
        spot_checked(pre, reply, local) == Ok::<Option<ChangeView>, FetchErrorView>(None),
    ensures
        pre.monitor_contract ==> resumed(pre, CheckEventView::Reply(reply), local).1
            == StepView::Fetch(positions_request(pre)),
        !pre.monitor_contract ==> resumed(pre, CheckEventView::Reply(reply), local).1
            == StepView::Done(Ok(None)),
{
}

/// Once a trade or a list of positions was seen, its baseline is never
/// missing again, whatever the later events bring.
pub proof fn law_baselines_stay(
    pre: HyperliquidMonitorView,
    event: CheckEventView,
    local: Option<Seq<char>>,
)
    ensures
        pre.last_spot_trade_id is Some ==> resumed(pre, event, local).0.last_spot_trade_id is Some,
        pre.last_positions_hash is Some ==> resumed(
            pre,
            event,
            local,
        ).0.last_positions_hash is Some,
{
}

/// An account is watched from no positions to an open position and back:
/// the first look at no positions reports the start and that there are none;
/// no positions again report nothing and leave the fingerprint; positions
/// that were opened are reported; and when they are closed again, that is
/// reported as no active positions.
pub proof fn law_positions_open_and_close(pre: HyperliquidMonitorView, open: Seq<PositionView>)
    requires
        pre.monitor_contract,
        pre.last_positions_hash is None,
        open.len() > 0,
    ensures
        ({
            let none = Seq::<PositionView>::empty();
            let begun = after_positions(pre, none);
            let held = after_positions(begun, open);
            &&& positions_observed(pre, none) == Some(start_flat(pre))
            &&& begun.last_positions_hash is Some
            &&& positions_observed(begun, none) is None
            &&& after_positions(begun, none) == begun
            &&& positions_observed(begun, open) == Some(holdings_changed(begun, open))
            &&& positions_observed(held, open) is None
            &&& positions_observed(held, none) == Some(closed_all(held))
        }),
{
    crate::monitors::positions::law_fingerprint_of_no_positions(open);
}

/// A check of an account whose trades are not watched is the look at its
/// positions: it asks for the state of the account, hands out the positions
/// that the answer lists to be turned into numbers, and ends with what the
/// look at the positions behind those numbers reports.
pub proof fn law_check_of_positions(
    pre: HyperliquidMonitorView,
    body: Seq<char>,
    numbers: Seq<crate::monitors::positions::NumbersView>,
    local: Option<Seq<char>>,
)
    requires
        !pre.monitor_spot,
        pre.monitor_contract,
        json_error(body) is None,
    ensures
        ({
            let asked = HyperliquidMonitorView { stage: started(pre).0, ..pre };
            let read = resumed(asked, CheckEventView::Reply(FetchReplyView::Body(body)), local);
            let done = resumed(read.0, CheckEventView::Numbers(numbers), local);
            let positions = positions_of(numbers);
            &&& started(pre).1 == StepView::Fetch(positions_request(pre))
            &&& read.1 == StepView::Quantize(raw_positions(body))
            &&& done.1 == StepView::Done(Ok(positions_observed(pre, positions)))
            &&& done.0.last_positions_hash == Some(fingerprint(positions))
            &&& done.0.stage == CheckStage::Idle
        }),
{
}

/// A check whose trades report nothing is the look at the positions: a
/// fresh monitor reports the start and that there are no positions, no
/// positions again report nothing, opened positions are reported, and
/// closed ones are reported as no active positions.
pub proof fn law_check_follows_the_positions(
    pre: HyperliquidMonitorView,
    trades: FetchReplyView,
    positions: Seq<PositionView>,
    local: Option<Seq<char>>,
)
    requires
        spot_checked(pre, trades, local) == Ok::<Option<ChangeView>, FetchErrorView>(None),
    ensures
        checked(pre, trades, positions, local) == Ok::<Option<ChangeView>, FetchErrorView>(
            positions_observed(after_spot(pre, trades), positions),
        ),
        after_check(pre, trades, positions) == after_positions(after_spot(pre, trades), positions),
        after_spot(pre, trades).last_positions_hash == pre.last_positions_hash,
        after_spot(pre, trades).monitor_contract == pre.monitor_contract,
        after_spot(pre, trades).notes == pre.notes,
        after_spot(pre, trades).address == pre.address,
{
}

/// Behind a change in the trades the positions are not looked at: the
/// change is the result, and the fingerprint stays as it was.
pub proof fn law_check_stops_at_a_trade(
    pre: HyperliquidMonitorView,
    trades: FetchReplyView,
    positions: Seq<PositionView>,
    local: Option<Seq<char>>,
    change: ChangeView,
)
    requires
        spot_checked(pre, trades, local) == Ok::<Option<ChangeView>, FetchErrorView>(Some(change)),
    ensures
        checked(pre, trades, positions, local) == Ok::<Option<ChangeView>, FetchErrorView>(
            Some(change),
        ),
        after_check(pre, trades, positions).last_positions_hash == pre.last_positions_hash,
{
}

} // verus!
