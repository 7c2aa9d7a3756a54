//! The closed set of source adapters: one variant per kind of source.

use crate::monitors::{CheckEvent, CheckEventView, FetchRequestView, Monitor, Step, StepView};
use crate::monitors::api_monitor::{ApiMonitor, ApiMonitorView};
use crate::monitors::hyperliquid_monitor::{HyperliquidMonitor, HyperliquidMonitorView};
use crate::monitors::static_monitor::{StaticMonitor, StaticMonitorView};
use vstd::prelude::*;

verus! {

/// A monitor of one of the known kinds.
pub enum SourceAdapter {
    /// Watches a web page.
    WebPage(StaticMonitor),
    /// Watches a value in the JSON of an API.
    ApiJson(ApiMonitor),
    /// Watches the trades and positions of an exchange account.
    ExchangeAccount(HyperliquidMonitor),
}

/// The state of a `SourceAdapter`.
pub enum SourceAdapterView {
    WebPage(StaticMonitorView),
    ApiJson(ApiMonitorView),
    ExchangeAccount(HyperliquidMonitorView),
}

impl View for SourceAdapter {
    type V = SourceAdapterView;

    open spec fn view(&self) -> SourceAdapterView {
        match self {
            SourceAdapter::WebPage(m) => SourceAdapterView::WebPage(m@),
            SourceAdapter::ApiJson(m) => SourceAdapterView::ApiJson(m@),
            SourceAdapter::ExchangeAccount(m) => SourceAdapterView::ExchangeAccount(m@),
        }
    }
}

/// How a check of an adapter begins: the state it leaves and the first step.
pub open spec fn started(pre: SourceAdapterView) -> (SourceAdapterView, StepView) {
    match pre {
        SourceAdapterView::WebPage(m) => (
            pre,
            StepView::Fetch(FetchRequestView::Get { url: m.url }),
        ),
        SourceAdapterView::ApiJson(m) => (
            pre,
            StepView::Fetch(FetchRequestView::Get { url: m.url }),
        ),
        SourceAdapterView::ExchangeAccount(m) => (
            SourceAdapterView::ExchangeAccount(
                HyperliquidMonitorView {
                    stage: crate::monitors::hyperliquid_monitor::started(m).0,
                    ..m
                },
            ),
            crate::monitors::hyperliquid_monitor::started(m).1,
        ),
    }
}

/// How a check of an adapter goes on after `event`, given the local time of
/// the latest trade where the adapter shows one.
pub open spec fn resumed(
    pre: SourceAdapterView,
    event: CheckEventView,
    local: Option<Seq<char>>,
) -> (SourceAdapterView, StepView) {
    match pre {
        SourceAdapterView::WebPage(m) => (
            SourceAdapterView::WebPage(crate::monitors::static_monitor::resumed(m, event).0),
            crate::monitors::static_monitor::resumed(m, event).1,
        ),
        SourceAdapterView::ApiJson(m) => (
            SourceAdapterView::ApiJson(crate::monitors::api_monitor::resumed(m, event).0),
            crate::monitors::api_monitor::resumed(m, event).1,
        ),
        SourceAdapterView::ExchangeAccount(m) => (
            SourceAdapterView::ExchangeAccount(
                crate::monitors::hyperliquid_monitor::resumed(m, event, local).0,
            ),
            crate::monitors::hyperliquid_monitor::resumed(m, event, local).1,
        ),
    }
}

/// What holds of the local time that a step of a check draws, whatever the
/// time zone; only the adapter of an exchange account draws one.
pub open spec fn time_drawn(
    pre: SourceAdapterView,
    event: CheckEventView,
    local: Option<Seq<char>>,
) -> bool {
    pre matches SourceAdapterView::ExchangeAccount(m)
        ==> crate::monitors::hyperliquid_monitor::time_drawn(m, event, local)
}

/// The interval of an adapter, in seconds.
pub open spec fn interval_of(a: SourceAdapterView) -> u64 {
    match a {
        SourceAdapterView::WebPage(m) => m.interval_secs,
        SourceAdapterView::ApiJson(m) => m.interval_secs,
        SourceAdapterView::ExchangeAccount(m) => m.interval_secs,
    }
}

/// The notes of an adapter.
pub open spec fn notes_of(a: SourceAdapterView) -> Seq<char> {
    match a {
        SourceAdapterView::WebPage(m) => m.notes,
        SourceAdapterView::ApiJson(m) => m.notes,
        SourceAdapterView::ExchangeAccount(m) => m.notes,
    }
}

/// The name of an adapter.
pub open spec fn name_of(a: SourceAdapterView) -> Seq<char> {
    match a {
        SourceAdapterView::WebPage(m) => "Static webpage monitor for "@ + m.url,
        SourceAdapterView::ApiJson(m) => "API monitor for "@ + m.url,
        SourceAdapterView::ExchangeAccount(m) => "Hyperliquid monitor for "@ + m.address,
    }
}

impl Monitor for SourceAdapter {
    open spec fn interval_secs(&self) -> u64 {
        interval_of(self@)
    }

    open spec fn name(&self) -> Seq<char> {
        name_of(self@)
    }

    open spec fn notes(&self) -> Seq<char> {
        notes_of(self@)
    }

    /// Begins a check of the monitor inside.
    fn start_check(&mut self) -> (r: Step)
        ensures
            (final(self)@, r@) == started(old(self)@),
    {
        match self {
            SourceAdapter::WebPage(m) => m.start_check(),
            SourceAdapter::ApiJson(m) => m.start_check(),
            SourceAdapter::ExchangeAccount(m) => m.start_check(),
        }
    }

    /// Goes on with the check of the monitor inside.
    fn resume_check(&mut self, event: CheckEvent) -> (r: Step)
        ensures
            exists|local: Option<Seq<char>>|
                time_drawn(old(self)@, event@, local) && (final(self)@, r@) == resumed(
                    old(self)@,
                    event@,
                    local,
                ),
    {
        match self {
            SourceAdapter::WebPage(m) => {
                let r = m.resume_check(event);
                assert(time_drawn(old(self)@, event@, None) && (self@, r@) == resumed(
                    old(self)@,
                    event@,
                    None,
                ));
                r
            },
            SourceAdapter::ApiJson(m) => {
                let r = m.resume_check(event);
                assert(time_drawn(old(self)@, event@, None) && (self@, r@) == resumed(
                    old(self)@,
                    event@,
                    None,
                ));
                r
            },
            SourceAdapter::ExchangeAccount(m) => {
                let ghost before = m@;
                let r = m.resume_check(event);
                let ghost local = choose|local: Option<Seq<char>>|
                    crate::monitors::hyperliquid_monitor::time_drawn(before, event@, local) && (
                    m@,
                    r@,
                    ) == crate::monitors::hyperliquid_monitor::resumed(before, event@, local);
                assert(time_drawn(old(self)@, event@, local) && (self@, r@) == resumed(
                    old(self)@,
                    event@,
                    local,
                ));
                r
            },
        }
    }

    /// Monitoring interval (seconds).
    fn interval(&self) -> (r: u64)
        ensures
            r == interval_of(self@),
    {
        match self {
            SourceAdapter::WebPage(m) => m.interval(),
            SourceAdapter::ApiJson(m) => m.interval(),
            SourceAdapter::ExchangeAccount(m) => m.interval(),
        }
    }

    /// Name of the monitor, for notifications.
    fn get_name(&self) -> (r: String)
        ensures
            r@ == name_of(self@),
    {
        match self {
            SourceAdapter::WebPage(m) => m.get_name(),
            SourceAdapter::ApiJson(m) => m.get_name(),
            SourceAdapter::ExchangeAccount(m) => m.get_name(),
        }
    }

    /// The notes that prefix every alert of the monitor.
    fn get_notes(&self) -> (r: String)
        ensures
            r@ == notes_of(self@),
    {
        match self {
            SourceAdapter::WebPage(m) => m.get_notes(),
            SourceAdapter::ApiJson(m) => m.get_notes(),
            SourceAdapter::ExchangeAccount(m) => m.get_notes(),
        }
    }
}

} // verus!
