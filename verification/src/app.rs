use crate::alerts::{alerts_view, checked_alert, Alert, AlertCondition};
use crate::config::Config;
use crate::historical::HistoricalResponse;
use crate::news::NewsResponse;
use crate::portfolio::{
    clone_items, find_item_index, find_symbol, items_view, lemma_find_symbol,
    lemma_item_value_nonneg, lemma_total_cost_nonneg, lemma_total_cost_take_le,
    lemma_total_cost_take_succ, lemma_total_value_nonneg, lemma_total_value_take_le,
    lemma_total_value_take_succ, total_cost, total_value, PortfolioItem, PortfolioItemV,
};
use crate::search::SymbolSearchResponse;
use crate::ticker::TickerResponse;
use vstd::prelude::*;

verus! {

/// The six screens of the dashboard, cycled in declared order.
#[derive(Clone, Copy, PartialEq, Eq, Structural, Debug)]
pub enum Tab {
    StockView,
    Portfolio,
    Search,
    News,
    Charts,
    Settings,
}

/// The tab one forward step reaches.
pub open spec fn next_tab_spec(t: Tab) -> Tab {
    match t {
        Tab::StockView => Tab::Portfolio,
        Tab::Portfolio => Tab::Search,
        Tab::Search => Tab::News,
        Tab::News => Tab::Charts,
        Tab::Charts => Tab::Settings,
        Tab::Settings => Tab::StockView,
    }
}

/// The tab one backward step reaches.
pub open spec fn prev_tab_spec(t: Tab) -> Tab {
    match t {
        Tab::StockView => Tab::Settings,
        Tab::Portfolio => Tab::StockView,
        Tab::Search => Tab::Portfolio,
        Tab::News => Tab::Search,
        Tab::Charts => Tab::News,
        Tab::Settings => Tab::Charts,
    }
}

/// Position of a tab in the tab bar, in cycle order.
pub open spec fn tab_index_spec(t: Tab) -> int {
    match t {
        Tab::StockView => 0,
        Tab::Portfolio => 1,
        Tab::Search => 2,
        Tab::News => 3,
        Tab::Charts => 4,
        Tab::Settings => 5,
    }
}

/// Tab navigation is a six-cycle: six forward steps from any tab return
/// to it, and one backward step exactly undoes one forward step (and the
/// other way around).
pub proof fn lemma_tab_cycle(t: Tab)
    ensures
        next_tab_spec(
            next_tab_spec(next_tab_spec(next_tab_spec(next_tab_spec(next_tab_spec(t))))),
        ) == t,
        prev_tab_spec(next_tab_spec(t)) == t,
        next_tab_spec(prev_tab_spec(t)) == t,
{
}

impl Tab {
    /// Position of this tab in the tab bar.
    pub fn index(&self) -> (r: usize)
        ensures
            r == tab_index_spec(*self),
    {
        match self {
            Tab::StockView => 0,
            Tab::Portfolio => 1,
            Tab::Search => 2,
            Tab::News => 3,
            Tab::Charts => 4,
            Tab::Settings => 5,
        }
    }
}

/// The whole state of the running dashboard: the loaded settings, the
/// latest fetched data snapshots, the portfolio and alerts (each
/// mirrored into the settings so the surrounding binary can persist
/// them), the active tab and the transient view state.
pub struct App {
    pub config: Config,
    pub ticker_data: Option<TickerResponse>,
    pub historical_data: Option<HistoricalResponse>,
    pub search_results: Option<SymbolSearchResponse>,
    pub news_data: Option<NewsResponse>,
    pub should_quit: bool,
    pub symbol: String,
    pub portfolio: Vec<PortfolioItem>,
    pub portfolio_sel: Option<usize>,
    pub alerts: Vec<Alert>,
    pub alerts_sel: Option<usize>,
    pub active_tab: Tab,
    pub error_message: Option<String>,
    pub search_query: String,
    pub selected_index: usize,
}

/// The symbol shown first: the configured default, or "AAPL" when none
/// is configured.
pub open spec fn initial_symbol(c: Config) -> Seq<char> {
    if c@.default_symbol.len() > 0 {
        c@.default_symbol
    } else {
        "AAPL"@
    }
}

/// The cached current price of the first holding of a symbol, if there
/// is such a holding and it has one.
pub open spec fn portfolio_price(items: Seq<PortfolioItemV>, sym: Seq<char>) -> Option<u64> {
    match find_symbol(items, sym) {
        Some(i) => items[i].current_price,
        None => None,
    }
}

/// Which price the dashboard knows for a symbol: the live ticker
/// snapshot when it is for that symbol and has bars, else the cached
/// price of the symbol's portfolio holding, else nothing.
pub open spec fn price_lookup(
    td: Option<TickerResponse>,
    items: Seq<PortfolioItemV>,
    sym: Seq<char>,
) -> Option<u64> {
    match td {
        Some(t) => if t@.ticker == sym && t@.results.len() > 0 {
            Some(t@.results[0].c)
        } else {
            portfolio_price(items, sym)
        },
        None => portfolio_price(items, sym),
    }
}

/// `price_lookup` applied to an application state.
pub open spec fn current_price_spec(app: App, sym: Seq<char>) -> Option<u64> {
    price_lookup(app.ticker_data, items_view(app.portfolio@), sym)
}

/// The two states agree on every field but the active tab.
pub open spec fn agrees_except_tab(a: App, b: App) -> bool {
    b == (App { active_tab: b.active_tab, ..a })
}

/// The two states agree on every field but the quit flag.
pub open spec fn agrees_except_quit(a: App, b: App) -> bool {
    b == (App { should_quit: b.should_quit, ..a })
}

/// The two states agree on everything but the portfolio and the settings
/// it is mirrored into.
pub open spec fn agrees_except_portfolio_state(a: App, b: App) -> bool {
    b == (App { portfolio: b.portfolio, config: b.config, ..a })
}

/// The two states agree on everything but the alerts and the settings
/// they are mirrored into.
pub open spec fn agrees_except_alerts_state(a: App, b: App) -> bool {
    b == (App { alerts: b.alerts, config: b.config, ..a })
}

/// The two settings agree on every field but the portfolio.
pub open spec fn config_agrees_except_portfolio(a: Config, b: Config) -> bool {
    &&& b.refresh_rate == a.refresh_rate
    &&& b.api_key == a.api_key
    &&& alerts_view(b.alerts@) == alerts_view(a.alerts@)
    &&& b.default_symbol == a.default_symbol
    &&& b.theme == a.theme
}

/// The two settings agree on every field but the alerts.
pub open spec fn config_agrees_except_alerts(a: Config, b: Config) -> bool {
    &&& items_view(b.portfolio@) == items_view(a.portfolio@)
    &&& b.refresh_rate == a.refresh_rate
    &&& b.api_key == a.api_key
    &&& b.default_symbol == a.default_symbol
    &&& b.theme == a.theme
}

impl App {
    /// A fresh dashboard on the given settings: nothing fetched yet, the
    /// stock view active, the configured portfolio and alerts loaded,
    /// and the configured (or fallback) symbol shown.
    pub fn new(config: Config) -> (r: App)
        ensures
            r.config == config,
            items_view(r.portfolio@) == config@.portfolio,
            alerts_view(r.alerts@) == config@.alerts,
            r.ticker_data is None,
            r.historical_data is None,
            r.search_results is None,
            r.news_data is None,
            !r.should_quit,
            r.symbol@ == initial_symbol(config),
            r.portfolio_sel is None,
            r.alerts_sel is None,
            r.active_tab == Tab::StockView,
            r.error_message is None,
            r.search_query@.len() == 0,
            r.selected_index == 0,
    {
        let portfolio = clone_items(&config.portfolio);
        let alerts = crate::alerts::clone_alerts(&config.alerts);
        let symbol = if config.default_symbol.as_str().is_empty() {
            "AAPL".to_owned()
        } else {
            config.default_symbol.clone()
        };
        App {
            config,
            ticker_data: None,
            historical_data: None,
            search_results: None,
            news_data: None,
            should_quit: false,
            symbol,
            portfolio,
            portfolio_sel: None,
            alerts,
            alerts_sel: None,
            active_tab: Tab::StockView,
            error_message: None,
            search_query: String::new(),
            selected_index: 0,
        }
    }

    /// Switch one tab forward in the cycle.
    pub fn next_tab(&mut self)
        ensures
            final(self).active_tab == next_tab_spec(old(self).active_tab),
            agrees_except_tab(*old(self), *final(self)),
    {
        self.active_tab = match self.active_tab {
            Tab::StockView => Tab::Portfolio,
            Tab::Portfolio => Tab::Search,
            Tab::Search => Tab::News,
            Tab::News => Tab::Charts,
            Tab::Charts => Tab::Settings,
            Tab::Settings => Tab::StockView,
        };
    }

    /// Switch one tab backward in the cycle.
    pub fn prev_tab(&mut self)
        ensures
            final(self).active_tab == prev_tab_spec(old(self).active_tab),
            agrees_except_tab(*old(self), *final(self)),
    {
        self.active_tab = match self.active_tab {
            Tab::StockView => Tab::Settings,
            Tab::Portfolio => Tab::StockView,
            Tab::Search => Tab::Portfolio,
            Tab::News => Tab::Search,
            Tab::Charts => Tab::News,
            Tab::Settings => Tab::Charts,
        };
    }

    /// The price the dashboard currently knows for a symbol: the live
    /// snapshot when it covers that symbol, else the portfolio's cached
    /// price for it.
    pub fn get_current_price(&self, symbol: &String) -> (r: Option<u64>)
        ensures
            r == current_price_spec(*self, symbol@),
    {
        lookup_price(&self.ticker_data, &self.portfolio, symbol)
    }

    /// Total market value of the portfolio, in cents; holdings without a
    /// known current price count as zero.
    pub fn calculate_portfolio_value(&self) -> (r: u64)
        requires
            total_value(items_view(self.portfolio@)) <= u64::MAX,
        ensures
            r == total_value(items_view(self.portfolio@)),
    {
        let ghost v = items_view(self.portfolio@);
        let mut acc: u64 = 0;
        let mut i: usize = 0;
        while i < self.portfolio.len()
            invariant
                i <= self.portfolio@.len(),
                v == items_view(self.portfolio@),
                total_value(v) <= u64::MAX,
                acc == total_value(v.take(i as int)),
            decreases self.portfolio@.len() - i,
        {
            proof {
                assert(v[i as int] == self.portfolio@[i as int]@);
                lemma_total_value_take_succ(v, i as int);
                lemma_total_value_take_le(v, i as int + 1);
                lemma_item_value_nonneg(v[i as int]);
            }
            match self.portfolio[i].current_price {
                Some(p) => {
                    let mv: u64 = p * self.portfolio[i].shares;
                    acc = acc + mv;
                },
                None => {},
            }
            i = i + 1;
        }
        proof {
            assert(v.take(v.len() as int) =~= v);
        }
        acc
    }

    /// Total cost basis of the portfolio, in cents.
    pub fn calculate_portfolio_cost(&self) -> (r: u64)
        requires
            total_cost(items_view(self.portfolio@)) <= u64::MAX,
        ensures
            r == total_cost(items_view(self.portfolio@)),
    {
        let ghost v = items_view(self.portfolio@);
        let mut acc: u64 = 0;
        let mut i: usize = 0;
        while i < self.portfolio.len()
            invariant
                i <= self.portfolio@.len(),
                v == items_view(self.portfolio@),
                total_cost(v) <= u64::MAX,
                acc == total_cost(v.take(i as int)),
            decreases self.portfolio@.len() - i,
        {
            proof {
                assert(v[i as int] == self.portfolio@[i as int]@);
                lemma_total_cost_take_succ(v, i as int);
                lemma_total_cost_take_le(v, i as int + 1);
            }
            acc = acc + self.portfolio[i].cost_cents;
            i = i + 1;
        }
        proof {
            assert(v.take(v.len() as int) =~= v);
        }
        acc
    }

    /// Unrealized gain or loss of the whole portfolio, in cents: total
    /// market value minus total cost basis.
    pub fn calculate_portfolio_profit_loss(&self) -> (r: i64)
        requires
            total_value(items_view(self.portfolio@)) <= i64::MAX,
            total_cost(items_view(self.portfolio@)) <= i64::MAX,
        ensures
            r == total_value(items_view(self.portfolio@)) - total_cost(
                items_view(self.portfolio@),
            ),
    {
        proof {
            lemma_total_value_nonneg(items_view(self.portfolio@));
            lemma_total_cost_nonneg(items_view(self.portfolio@));
        }
        let value = self.calculate_portfolio_value();
        let cost = self.calculate_portfolio_cost();
        value as i64 - cost as i64
    }
}

/// A holding after merging one more lot into it: the share counts add
/// up and the cost basis grows by exactly what the lot cost.
pub open spec fn merged_item(it: PortfolioItemV, shares: u64, price_cents: u64) -> PortfolioItemV {
    PortfolioItemV {
        shares: (it.shares + shares) as u64,
        cost_cents: (it.cost_cents + shares * price_cents) as u64,
        ..it
    }
}

/// A brand-new holding bought as one lot.
pub open spec fn fresh_item(sym: Seq<char>, shares: u64, price_cents: u64) -> PortfolioItemV {
    PortfolioItemV {
        symbol: sym,
        shares,
        cost_cents: (shares * price_cents) as u64,
        current_price: None,
        purchase_date: None,
        notes: None,
    }
}

/// The portfolio after buying a lot of a symbol: merged into the first
/// holding of that symbol if there is one, else appended as a new
/// holding.
pub open spec fn add_result(
    v0: Seq<PortfolioItemV>,
    sym: Seq<char>,
    shares: u64,
    price_cents: u64,
) -> Seq<PortfolioItemV> {
    match find_symbol(v0, sym) {
        Some(i) => v0.update(i, merged_item(v0[i], shares, price_cents)),
        None => v0.push(fresh_item(sym, shares, price_cents)),
    }
}

/// Whether buying the lot stays within the machine range of the share
/// and cost counters.
pub open spec fn add_fits(
    v0: Seq<PortfolioItemV>,
    sym: Seq<char>,
    shares: u64,
    price_cents: u64,
) -> bool {
    shares * price_cents <= u64::MAX && match find_symbol(v0, sym) {
        Some(i) => v0[i].shares + shares <= u64::MAX && v0[i].cost_cents + shares * price_cents
            <= u64::MAX,
        None => true,
    }
}

/// Buying a lot grows the portfolio's total cost basis by exactly what
/// the lot cost, whether it merged into an existing holding or opened a
/// new one: the bookkeeping neither creates nor loses money.
pub proof fn lemma_add_preserves_cost_sum(
    v0: Seq<PortfolioItemV>,
    sym: Seq<char>,
    shares: u64,
    price_cents: u64,
)
    requires
        add_fits(v0, sym, shares, price_cents),
    ensures
        total_cost(add_result(v0, sym, shares, price_cents)) == total_cost(v0) + shares
            * price_cents,
{
    match find_symbol(v0, sym) {
        Some(i) => {
            lemma_find_symbol(v0, sym);
            crate::portfolio::lemma_total_cost_update(
                v0,
                i,
                merged_item(v0[i], shares, price_cents),
            );
        },
        None => {
            assert(v0.push(fresh_item(sym, shares, price_cents)).drop_last() =~= v0);
        },
    }
}

/// No two holdings carry the same symbol: the symbol is the portfolio's
/// unique key.
pub open spec fn unique_symbols(items: Seq<PortfolioItemV>) -> bool {
    forall|i: int, j: int| 0 <= i < j < items.len() ==> items[i].symbol != items[j].symbol
}

/// Buying a lot keeps the portfolio's symbols unique: a symbol already
/// held merges into its holding, and a new holding is appended only when
/// no holding carries its symbol.
pub proof fn lemma_add_preserves_unique_symbols(
    v0: Seq<PortfolioItemV>,
    sym: Seq<char>,
    shares: u64,
    price_cents: u64,
)
    requires
        unique_symbols(v0),
    ensures
        unique_symbols(add_result(v0, sym, shares, price_cents)),
{
    lemma_find_symbol(v0, sym);
    let v1 = add_result(v0, sym, shares, price_cents);
    match find_symbol(v0, sym) {
        Some(i) => {
            assert(forall|k: int| 0 <= k < v1.len() ==> v1[k].symbol == v0[k].symbol);
        },
        None => {
            assert(forall|j: int| 0 <= j < v0.len() ==> v0[j].symbol != sym);
            assert(forall|k: int| 0 <= k < v0.len() ==> v1[k] == v0[k]);
            assert(v1[v0.len() as int].symbol == sym);
        },
    }
}

impl App {
    /// Buy a lot of the current symbol: merge it into the existing
    /// holding of that symbol via the exact weighted-average bookkeeping,
    /// or append a new holding; mirror the result into the settings so
    /// the caller can persist them. Does nothing while no symbol is
    /// entered.
    pub fn add_to_portfolio(&mut self, shares: u64, price_cents: u64)
        requires
            old(self).symbol@.len() > 0 ==> add_fits(
                items_view(old(self).portfolio@),
                old(self).symbol@,
                shares,
                price_cents,
            ),
        ensures
            old(self).symbol@.len() == 0 ==> *final(self) == *old(self),
            old(self).symbol@.len() > 0 ==> {
                &&& agrees_except_portfolio_state(*old(self), *final(self))
                &&& items_view(final(self).portfolio@) == add_result(
                    items_view(old(self).portfolio@),
                    old(self).symbol@,
                    shares,
                    price_cents,
                )
                &&& items_view(final(self).config.portfolio@) == items_view(
                    final(self).portfolio@,
                )
                &&& config_agrees_except_portfolio(old(self).config, final(self).config)
            },
    {
        if self.symbol.as_str().is_empty() {
            return ;
        }
        let ghost v0 = items_view(self.portfolio@);
        match find_item_index(&self.portfolio, &self.symbol) {
            Some(i) => {
                proof {
                    assert(v0[i as int] == self.portfolio@[i as int]@);
                }
                let mut it = self.portfolio[i].clone();
                it.add_lot(shares, price_cents);
                self.portfolio.set(i, it);
                proof {
                    assert(items_view(self.portfolio@) =~= v0.update(
                        i as int,
                        merged_item(v0[i as int], shares, price_cents),
                    ));
                }
            },
            None => {
                let it = PortfolioItem::new(self.symbol.clone(), shares, price_cents);
                self.portfolio.push(it);
                proof {
                    assert(items_view(self.portfolio@) =~= v0.push(
                        fresh_item(self.symbol@, shares, price_cents),
                    ));
                }
            },
        }
        self.config.portfolio = clone_items(&self.portfolio);
    }

    /// Drop the holding at the given position and mirror the result into
    /// the settings; an out-of-range position changes nothing.
    pub fn remove_from_portfolio(&mut self, index: usize)
        ensures
            index < old(self).portfolio@.len() ==> {
                &&& agrees_except_portfolio_state(*old(self), *final(self))
                &&& items_view(final(self).portfolio@) == items_view(
                    old(self).portfolio@,
                ).remove(index as int)
                &&& items_view(final(self).config.portfolio@) == items_view(
                    final(self).portfolio@,
                )
                &&& config_agrees_except_portfolio(old(self).config, final(self).config)
            },
            index >= old(self).portfolio@.len() ==> *final(self) == *old(self),
    {
        if index < self.portfolio.len() {
            let ghost v0 = items_view(self.portfolio@);
            self.portfolio.remove(index);
            proof {
                assert(items_view(self.portfolio@) =~= v0.remove(index as int));
            }
            self.config.portfolio = clone_items(&self.portfolio);
        }
    }

    /// Add a fresh, untriggered alert and mirror the alerts into the
    /// settings so the caller can persist them.
    pub fn add_alert(&mut self, symbol: String, condition: AlertCondition, price_cents: u64)
        ensures
            agrees_except_alerts_state(*old(self), *final(self)),
            alerts_view(final(self).alerts@) == alerts_view(old(self).alerts@).push(
                crate::alerts::AlertV {
                    symbol: symbol@,
                    condition,
                    price_cents,
                    triggered: false,
                },
            ),
            alerts_view(final(self).config.alerts@) == alerts_view(final(self).alerts@),
            config_agrees_except_alerts(old(self).config, final(self).config),
    {
        let ghost a0 = alerts_view(self.alerts@);
        self.alerts.push(Alert { symbol, condition, price_cents, triggered: false });
        proof {
            assert(alerts_view(self.alerts@) =~= a0.push(
                crate::alerts::AlertV { symbol: symbol@, condition, price_cents, triggered: false },
            ));
        }
        self.config.alerts = crate::alerts::clone_alerts(&self.alerts);
    }

    /// Drop the alert at the given position and mirror the result into
    /// the settings; an out-of-range position changes nothing.
    pub fn remove_alert(&mut self, index: usize)
        ensures
            index < old(self).alerts@.len() ==> {
                &&& agrees_except_alerts_state(*old(self), *final(self))
                &&& alerts_view(final(self).alerts@) == alerts_view(old(self).alerts@).remove(
                    index as int,
                )
                &&& alerts_view(final(self).config.alerts@) == alerts_view(final(self).alerts@)
                &&& config_agrees_except_alerts(old(self).config, final(self).config)
            },
            index >= old(self).alerts@.len() ==> *final(self) == *old(self),
    {
        if index < self.alerts.len() {
            let ghost a0 = alerts_view(self.alerts@);
            self.alerts.remove(index);
            proof {
                assert(alerts_view(self.alerts@) =~= a0.remove(index as int));
            }
            self.config.alerts = crate::alerts::clone_alerts(&self.alerts);
        }
    }

    /// Evaluate every alert against the price the dashboard currently
    /// knows for its symbol and set (never clear) the triggered flags;
    /// mirror the alerts into the settings so the caller can persist the
    /// triggered state.
    pub fn check_alerts(&mut self)
        ensures
            agrees_except_alerts_state(*old(self), *final(self)),
            alerts_view(final(self).alerts@).len() == alerts_view(old(self).alerts@).len(),
            forall|i: int|
                0 <= i < alerts_view(old(self).alerts@).len() ==> alerts_view(
                    final(self).alerts@,
                )[i] == checked_alert(
                    alerts_view(old(self).alerts@)[i],
                    current_price_spec(*old(self), alerts_view(old(self).alerts@)[i].symbol),
                ),
            alerts_view(final(self).config.alerts@) == alerts_view(final(self).alerts@),
            config_agrees_except_alerts(old(self).config, final(self).config),
    {
        let ghost a0 = alerts_view(self.alerts@);
        let mut i: usize = 0;
        while i < self.alerts.len()
            invariant
                i <= self.alerts@.len(),
                self.alerts@.len() == a0.len(),
                self.ticker_data == old(self).ticker_data,
                self.portfolio == old(self).portfolio,
                a0 == alerts_view(old(self).alerts@),
                forall|j: int| i <= j < a0.len() ==> self.alerts@[j]@ == a0[j],
                forall|j: int|
                    0 <= j < i ==> self.alerts@[j]@ == checked_alert(
                        a0[j],
                        current_price_spec(*old(self), a0[j].symbol),
                    ),
                agrees_except_alerts_state(*old(self), *self),
                self.config == old(self).config,
            decreases self.alerts@.len() - i,
        {
            proof {
                assert(self.alerts@[i as int]@ == a0[i as int]);
            }
            let price = lookup_price(&self.ticker_data, &self.portfolio, &self.alerts[i].symbol);
            match price {
                Some(p) => {
                    if self.alerts[i].is_triggered(p) {
                        let mut a = self.alerts[i].clone();
                        a.triggered = true;
                        self.alerts.set(i, a);
                    }
                },
                None => {},
            }
            i = i + 1;
        }
        self.config.alerts = crate::alerts::clone_alerts(&self.alerts);
    }
}

/// The two states agree on everything but the ticker snapshot and the
/// error message.
pub open spec fn agrees_except_ticker(a: App, b: App) -> bool {
    b == (App { ticker_data: b.ticker_data, error_message: b.error_message, ..a })
}

/// The two states agree on everything but the ticker snapshot, the
/// error message and the portfolio (whose cached price the snapshot may
/// refresh).
pub open spec fn agrees_except_ticker_update(a: App, b: App) -> bool {
    b == (App {
        ticker_data: b.ticker_data,
        error_message: b.error_message,
        portfolio: b.portfolio,
        ..a
    })
}

/// The two states agree on everything but the historical series and the
/// error message.
pub open spec fn agrees_except_historical(a: App, b: App) -> bool {
    b == (App { historical_data: b.historical_data, error_message: b.error_message, ..a })
}

/// The two states agree on everything but the search results and the
/// error message.
pub open spec fn agrees_except_search(a: App, b: App) -> bool {
    b == (App { search_results: b.search_results, error_message: b.error_message, ..a })
}

/// The two states agree on everything but the news and the error
/// message.
pub open spec fn agrees_except_news(a: App, b: App) -> bool {
    b == (App { news_data: b.news_data, error_message: b.error_message, ..a })
}

/// The portfolio after a ticker snapshot arrives: when the snapshot has
/// bars and the fetched symbol is held, that holding's cached current
/// price becomes the snapshot's latest close; otherwise nothing changes.
pub open spec fn priced_portfolio(
    items: Seq<PortfolioItemV>,
    sym: Seq<char>,
    data: TickerResponse,
) -> Seq<PortfolioItemV> {
    if data@.results.len() > 0 {
        match find_symbol(items, sym) {
            Some(i) => items.update(
                i,
                PortfolioItemV { current_price: Some(data@.results[0].c), ..items[i] },
            ),
            None => items,
        }
    } else {
        items
    }
}

impl App {
    /// Whether a symbol-driven fetch should run at all: ticker, history
    /// and news fetches are skipped while no symbol is entered.
    pub fn wants_symbol_fetch(&self) -> (r: bool)
        ensures
            r == (self.symbol@.len() > 0),
    {
        !self.symbol.as_str().is_empty()
    }

    /// Whether a symbol search should run: skipped while the query is
    /// empty.
    pub fn wants_search(&self) -> (r: bool)
        ensures
            r == (self.search_query@.len() > 0),
    {
        !self.search_query.as_str().is_empty()
    }

    /// Take the outcome of a ticker fetch: a snapshot replaces the old
    /// one wholesale, clears any error, and refreshes the cached price
    /// of the fetched symbol's holding; a failure clears the snapshot
    /// and leaves its message in the status line.
    pub fn apply_ticker_fetch(&mut self, outcome: Result<TickerResponse, String>)
        ensures
            match outcome {
                Ok(data) => {
                    &&& agrees_except_ticker_update(*old(self), *final(self))
                    &&& final(self).ticker_data == Some(data)
                    &&& final(self).error_message is None
                    &&& items_view(final(self).portfolio@) == priced_portfolio(
                        items_view(old(self).portfolio@),
                        old(self).symbol@,
                        data,
                    )
                },
                Err(msg) => {
                    &&& agrees_except_ticker(*old(self), *final(self))
                    &&& final(self).ticker_data is None
                    &&& final(self).error_message matches Some(m) && m@
                        == "Error fetching ticker data: "@ + msg@
                },
            },
    {
        match outcome {
            Ok(data) => {
                let ghost v0 = items_view(self.portfolio@);
                if data.results.len() > 0 {
                    match find_item_index(&self.portfolio, &self.symbol) {
                        Some(i) => {
                            proof {
                                assert(v0[i as int] == self.portfolio@[i as int]@);
                            }
                            let mut it = self.portfolio[i].clone();
                            it.current_price = Some(data.results[0].c);
                            self.portfolio.set(i, it);
                            proof {
                                assert(items_view(self.portfolio@) =~= v0.update(
                                    i as int,
                                    PortfolioItemV {
                                        current_price: Some(data@.results[0].c),
                                        ..v0[i as int]
                                    },
                                ));
                            }
                        },
                        None => {},
                    }
                }
                self.ticker_data = Some(data);
                self.error_message = None;
            },
            Err(msg) => {
                self.error_message = Some(error_text("Error fetching ticker data: ", msg));
                self.ticker_data = None;
            },
        }
    }

    /// Take the outcome of a historical fetch: the series replaces the
    /// old one wholesale and clears any error; a failure clears the
    /// series and leaves its message in the status line.
    pub fn apply_historical_fetch(&mut self, outcome: Result<HistoricalResponse, String>)
        ensures
            match outcome {
                Ok(data) => {
                    &&& agrees_except_historical(*old(self), *final(self))
                    &&& final(self).historical_data == Some(data)
                    &&& final(self).error_message is None
                },
                Err(msg) => {
                    &&& agrees_except_historical(*old(self), *final(self))
                    &&& final(self).historical_data is None
                    &&& final(self).error_message matches Some(m) && m@
                        == "Error fetching historical data: "@ + msg@
                },
            },
    {
        match outcome {
            Ok(data) => {
                self.historical_data = Some(data);
                self.error_message = None;
            },
            Err(msg) => {
                self.error_message = Some(error_text("Error fetching historical data: ", msg));
                self.historical_data = None;
            },
        }
    }

    /// Take the outcome of a symbol search: results replace the old ones
    /// wholesale and clear any error; a failure clears them and leaves
    /// its message in the status line.
    pub fn apply_search_results(&mut self, outcome: Result<SymbolSearchResponse, String>)
        ensures
            match outcome {
                Ok(data) => {
                    &&& agrees_except_search(*old(self), *final(self))
                    &&& final(self).search_results == Some(data)
                    &&& final(self).error_message is None
                },
                Err(msg) => {
                    &&& agrees_except_search(*old(self), *final(self))
                    &&& final(self).search_results is None
                    &&& final(self).error_message matches Some(m) && m@
                        == "Error searching symbols: "@ + msg@
                },
            },
    {
        match outcome {
            Ok(data) => {
                self.search_results = Some(data);
                self.error_message = None;
            },
            Err(msg) => {
                self.error_message = Some(error_text("Error searching symbols: ", msg));
                self.search_results = None;
            },
        }
    }

    /// Take the outcome of a news fetch: articles replace the old ones
    /// wholesale and clear any error; a failure clears them and leaves
    /// its message in the status line.
    pub fn apply_news_fetch(&mut self, outcome: Result<NewsResponse, String>)
        ensures
            match outcome {
                Ok(data) => {
                    &&& agrees_except_news(*old(self), *final(self))
                    &&& final(self).news_data == Some(data)
                    &&& final(self).error_message is None
                },
                Err(msg) => {
                    &&& agrees_except_news(*old(self), *final(self))
                    &&& final(self).news_data is None
                    &&& final(self).error_message matches Some(m) && m@
                        == "Error fetching news: "@ + msg@
                },
            },
    {
        match outcome {
            Ok(data) => {
                self.news_data = Some(data);
                self.error_message = None;
            },
            Err(msg) => {
                self.error_message = Some(error_text("Error fetching news: ", msg));
                self.news_data = None;
            },
        }
    }
}

/// The status-line message for a failed operation: a fixed prefix
/// followed by the underlying error's text.
fn error_text(prefix: &str, msg: String) -> (r: String)
    ensures
        r@ == prefix@ + msg@,
{
    let mut r = prefix.to_owned();
    r.append(msg.as_str());
    r
}

/// The price rule of `price_lookup`, executed against the snapshot and
/// the holdings.
fn lookup_price(td: &Option<TickerResponse>, items: &Vec<PortfolioItem>, sym: &String) -> (r:
    Option<u64>)
    ensures
        r == price_lookup(*td, items_view(items@), sym@),
{
    match td {
        Some(t) => {
            if t.ticker == *sym && t.results.len() > 0 {
                Some(t.results[0].c)
            } else {
                portfolio_cached_price(items, sym)
            }
        },
        None => portfolio_cached_price(items, sym),
    }
}

/// The cached price of the first holding of a symbol, executed.
fn portfolio_cached_price(items: &Vec<PortfolioItem>, sym: &String) -> (r: Option<u64>)
    ensures
        r == portfolio_price(items_view(items@), sym@),
{
    match find_item_index(items, sym) {
        Some(i) => {
            proof {
                assert(items_view(items@)[i as int] == items@[i as int]@);
            }
            items[i].current_price
        },
        None => None,
    }
}

} // verus!
