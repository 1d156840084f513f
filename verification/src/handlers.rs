use crate::alerts::{alerts_view, AlertCondition, AlertV};
use crate::app::{
    add_fits, add_result, agrees_except_alerts_state, agrees_except_portfolio_state,
    config_agrees_except_alerts, config_agrees_except_portfolio, next_tab_spec, prev_tab_spec,
    App, Tab,
};
use crate::events::Action;
use crate::portfolio::{find_item_index, items_view};
use crate::text::{pop_char, push_char};
use vstd::prelude::*;

verus! {

/// The lot the portfolio key buys and the target price the alert key
/// sets: fixed amounts standing in for an input dialog.
pub const DEFAULT_LOT_SHARES: u64 = 1;

pub const DEFAULT_LOT_PRICE_CENTS: u64 = 10_000;

pub const DEFAULT_ALERT_PRICE_CENTS: u64 = 10_000;

/// A key press, as the dashboard distinguishes them; everything else is
/// `Other`.
#[derive(Clone, Copy, PartialEq, Eq, Structural, Debug)]
pub enum Key {
    Char(char),
    Up,
    Down,
    Enter,
    Backspace,
    Tab,
    BackTab,
    Other,
}

/// An uppercase ASCII letter: the only characters the symbol field
/// accepts.
pub open spec fn is_ascii_upper(c: char) -> bool {
    65 <= c as int && c as int <= 90
}

/// One step up in a list selection: nothing selected stays nothing, the
/// top entry stays put.
pub open spec fn sel_up(sel: Option<usize>) -> Option<usize> {
    match sel {
        Some(k) => if k > 0 {
            Some((k - 1) as usize)
        } else {
            sel
        },
        None => None,
    }
}

/// One step down in a list selection, clamped to the list: with nothing
/// selected the walk starts from the top entry.
pub open spec fn sel_down(sel: Option<usize>, len: nat) -> Option<usize> {
    let cur: nat = match sel {
        Some(k) => k as nat,
        None => 0nat,
    };
    if cur + 1 < len {
        Some((cur + 1) as usize)
    } else {
        sel
    }
}

/// The two states agree on every field but the entered symbol.
pub open spec fn agrees_except_symbol(a: App, b: App) -> bool {
    b == (App { symbol: b.symbol, ..a })
}

/// The two states agree on every field but the search query.
pub open spec fn agrees_except_query(a: App, b: App) -> bool {
    b == (App { search_query: b.search_query, ..a })
}

/// The two states agree on every field but the alert-list selection.
pub open spec fn agrees_except_alerts_sel(a: App, b: App) -> bool {
    b == (App { alerts_sel: b.alerts_sel, ..a })
}

/// The two states agree on every field but the portfolio selection.
pub open spec fn agrees_except_portfolio_sel(a: App, b: App) -> bool {
    b == (App { portfolio_sel: b.portfolio_sel, ..a })
}

/// The two states agree on every field but the entered symbol and the
/// active tab.
pub open spec fn agrees_except_symbol_and_tab(a: App, b: App) -> bool {
    b == (App { symbol: b.symbol, active_tab: b.active_tab, ..a })
}

/// A fresh default alert on the current symbol was appended and the
/// alerts were mirrored into the settings.
pub open spec fn alert_added(a: App, b: App) -> bool {
    &&& agrees_except_alerts_state(a, b)
    &&& alerts_view(b.alerts@) == alerts_view(a.alerts@).push(
        AlertV {
            symbol: a.symbol@,
            condition: AlertCondition::Above,
            price_cents: DEFAULT_ALERT_PRICE_CENTS,
            triggered: false,
        },
    )
    &&& alerts_view(b.config.alerts@) == alerts_view(b.alerts@)
    &&& config_agrees_except_alerts(a.config, b.config)
}

/// The alert at the selected position was removed and the alerts were
/// mirrored into the settings; an out-of-range position changed nothing.
pub open spec fn alert_removed(a: App, b: App, k: usize) -> bool {
    if k < a.alerts@.len() {
        &&& agrees_except_alerts_state(a, b)
        &&& alerts_view(b.alerts@) == alerts_view(a.alerts@).remove(k as int)
        &&& alerts_view(b.config.alerts@) == alerts_view(b.alerts@)
        &&& config_agrees_except_alerts(a.config, b.config)
    } else {
        b == a
    }
}

/// The default lot was bought into the current symbol's holding (or a
/// new holding) and the portfolio was mirrored into the settings; with
/// no symbol entered, or when the buy would overflow the counters,
/// nothing changed.
pub open spec fn lot_added(a: App, b: App) -> bool {
    if a.symbol@.len() > 0 && add_fits(
        items_view(a.portfolio@),
        a.symbol@,
        DEFAULT_LOT_SHARES,
        DEFAULT_LOT_PRICE_CENTS,
    ) {
        &&& agrees_except_portfolio_state(a, b)
        &&& items_view(b.portfolio@) == add_result(
            items_view(a.portfolio@),
            a.symbol@,
            DEFAULT_LOT_SHARES,
            DEFAULT_LOT_PRICE_CENTS,
        )
        &&& items_view(b.config.portfolio@) == items_view(b.portfolio@)
        &&& config_agrees_except_portfolio(a.config, b.config)
    } else {
        b == a
    }
}

/// The holding at the selected position was removed and the portfolio
/// was mirrored into the settings; an out-of-range position changed
/// nothing.
pub open spec fn holding_removed(a: App, b: App, k: usize) -> bool {
    if k < a.portfolio@.len() {
        &&& agrees_except_portfolio_state(a, b)
        &&& items_view(b.portfolio@) == items_view(a.portfolio@).remove(k as int)
        &&& items_view(b.config.portfolio@) == items_view(b.portfolio@)
        &&& config_agrees_except_portfolio(a.config, b.config)
    } else {
        b == a
    }
}

/// What the keys do on the stock view: uppercase letters extend the
/// entered symbol, backspace trims it, enter asks for a ticker fetch,
/// and the alert keys manage the alert list shown under the quote.
pub open spec fn stock_view_step(a: App, b: App, key: Key, act: Action) -> bool {
    match key {
        Key::Char(c) => {
            if is_ascii_upper(c) {
                agrees_except_symbol(a, b) && b.symbol@ == a.symbol@.push(c) && act
                    == Action::Idle
            } else if c == 'a' {
                alert_added(a, b) && act == Action::Idle
            } else if c == 'd' {
                (match a.alerts_sel {
                    Some(k) => alert_removed(a, b, k),
                    None => b == a,
                }) && act == Action::Idle
            } else {
                b == a && act == Action::Idle
            }
        },
        Key::Backspace => {
            &&& agrees_except_symbol(a, b)
            &&& b.symbol@ == (if a.symbol@.len() > 0 {
                a.symbol@.drop_last()
            } else {
                a.symbol@
            })
            &&& act == Action::Idle
        },
        Key::Enter => b == a && act == Action::FetchTicker,
        Key::Up => agrees_except_alerts_sel(a, b) && b.alerts_sel == sel_up(a.alerts_sel) && act
            == Action::Idle,
        Key::Down => agrees_except_alerts_sel(a, b) && b.alerts_sel == sel_down(
            a.alerts_sel,
            a.alerts@.len(),
        ) && act == Action::Idle,
        _ => b == a && act == Action::Idle,
    }
}

/// What the keys do on the portfolio tab: buy the default lot, remove
/// the selected holding, move the selection, or jump to the selected
/// holding's stock view and ask for its ticker.
pub open spec fn portfolio_step(a: App, b: App, key: Key, act: Action) -> bool {
    match key {
        Key::Char(c) => {
            if c == 'a' {
                lot_added(a, b) && act == Action::Idle
            } else if c == 'd' {
                (match a.portfolio_sel {
                    Some(k) => holding_removed(a, b, k),
                    None => b == a,
                }) && act == Action::Idle
            } else {
                b == a && act == Action::Idle
            }
        },
        Key::Up => agrees_except_portfolio_sel(a, b) && b.portfolio_sel == sel_up(a.portfolio_sel)
            && act == Action::Idle,
        Key::Down => agrees_except_portfolio_sel(a, b) && b.portfolio_sel == sel_down(
            a.portfolio_sel,
            a.portfolio@.len(),
        ) && act == Action::Idle,
        Key::Enter => {
            match a.portfolio_sel {
                Some(k) => if k < a.portfolio@.len() {
                    &&& agrees_except_symbol_and_tab(a, b)
                    &&& b.symbol@ == items_view(a.portfolio@)[k as int].symbol
                    &&& b.active_tab == Tab::StockView
                    &&& act == Action::FetchTicker
                } else {
                    b == a && act == Action::Idle
                },
                None => b == a && act == Action::Idle,
            }
        },
        _ => b == a && act == Action::Idle,
    }
}

/// What the keys do on the search tab: characters extend the query,
/// backspace trims it, enter asks for the search to run.
pub open spec fn search_step(a: App, b: App, key: Key, act: Action) -> bool {
    match key {
        Key::Char(c) => agrees_except_query(a, b) && b.search_query@ == a.search_query@.push(c)
            && act == Action::Idle,
        Key::Backspace => {
            &&& agrees_except_query(a, b)
            &&& b.search_query@ == (if a.search_query@.len() > 0 {
                a.search_query@.drop_last()
            } else {
                a.search_query@
            })
            &&& act == Action::Idle
        },
        Key::Enter => b == a && act == Action::RunSearch,
        _ => b == a && act == Action::Idle,
    }
}

/// The keys that work on every tab: quit, and the two tab-cycle keys.
/// `None` means the key falls through to the active tab's handler.
pub open spec fn global_step(a: App, key: Key) -> Option<App> {
    match key {
        Key::Char(c) => if c == 'q' {
            Some(App { should_quit: true, ..a })
        } else {
            None
        },
        Key::Tab => Some(App { active_tab: next_tab_spec(a.active_tab), ..a }),
        Key::BackTab => Some(App { active_tab: prev_tab_spec(a.active_tab), ..a }),
        _ => None,
    }
}

/// One step up in a selection, executed.
fn sel_move_up(sel: Option<usize>) -> (r: Option<usize>)
    ensures
        r == sel_up(sel),
{
    match sel {
        Some(k) => if k > 0 {
            Some(k - 1)
        } else {
            sel
        },
        None => None,
    }
}

/// One step down in a selection, executed.
fn sel_move_down(sel: Option<usize>, len: usize) -> (r: Option<usize>)
    ensures
        r == sel_down(sel, len as nat),
{
    let cur: usize = match sel {
        Some(k) => k,
        None => 0,
    };
    if len > 0 && cur < len - 1 {
        Some(cur + 1)
    } else {
        sel
    }
}

/// Dispatch one key on the stock view; this tab hosts both the quote
/// with its symbol entry and the alerts pane beneath it.
pub fn handle_alerts_events(app: &mut App, key: Key) -> (act: Action)
    ensures
        stock_view_step(*old(app), *final(app), key, act),
{
    match key {
        Key::Char(c) => {
            let u = c as u32;
            if 65 <= u && u <= 90 {
                push_char(&mut app.symbol, c);
                Action::Idle
            } else if c == 'a' {
                let sym = app.symbol.clone();
                app.add_alert(sym, AlertCondition::Above, DEFAULT_ALERT_PRICE_CENTS);
                Action::Idle
            } else if c == 'd' {
                match app.alerts_sel {
                    Some(k) => {
                        app.remove_alert(k);
                    },
                    None => {},
                }
                Action::Idle
            } else {
                Action::Idle
            }
        },
        Key::Backspace => {
            pop_char(&mut app.symbol);
            Action::Idle
        },
        Key::Enter => Action::FetchTicker,
        Key::Up => {
            app.alerts_sel = sel_move_up(app.alerts_sel);
            Action::Idle
        },
        Key::Down => {
            let l = app.alerts.len();
            app.alerts_sel = sel_move_down(app.alerts_sel, l);
            Action::Idle
        },
        _ => Action::Idle,
    }
}

/// Dispatch one key on the portfolio tab.
pub fn handle_portfolio_events(app: &mut App, key: Key) -> (act: Action)
    ensures
        portfolio_step(*old(app), *final(app), key, act),
{
    match key {
        Key::Char(c) => {
            if c == 'a' {
                let fits: bool = match find_item_index(&app.portfolio, &app.symbol) {
                    Some(i) => {
                        proof {
                            assert(items_view(app.portfolio@)[i as int] == app.portfolio@[i as
                                int]@);
                        }
                        app.portfolio[i].shares <= u64::MAX - DEFAULT_LOT_SHARES
                            && app.portfolio[i].cost_cents <= u64::MAX - DEFAULT_LOT_SHARES
                            * DEFAULT_LOT_PRICE_CENTS
                    },
                    None => true,
                };
                if fits {
                    app.add_to_portfolio(DEFAULT_LOT_SHARES, DEFAULT_LOT_PRICE_CENTS);
                }
                Action::Idle
            } else if c == 'd' {
                match app.portfolio_sel {
                    Some(k) => {
                        app.remove_from_portfolio(k);
                    },
                    None => {},
                }
                Action::Idle
            } else {
                Action::Idle
            }
        },
        Key::Up => {
            app.portfolio_sel = sel_move_up(app.portfolio_sel);
            Action::Idle
        },
        Key::Down => {
            let l = app.portfolio.len();
            app.portfolio_sel = sel_move_down(app.portfolio_sel, l);
            Action::Idle
        },
        Key::Enter => {
            match app.portfolio_sel {
                Some(k) => {
                    if k < app.portfolio.len() {
                        proof {
                            assert(items_view(app.portfolio@)[k as int] == app.portfolio@[k as
                                int]@);
                        }
                        let sym = app.portfolio[k].symbol.clone();
                        app.symbol = sym;
                        app.active_tab = Tab::StockView;
                        Action::FetchTicker
                    } else {
                        Action::Idle
                    }
                },
                None => Action::Idle,
            }
        },
        _ => Action::Idle,
    }
}

/// Dispatch one key on the search tab.
fn handle_search_events(app: &mut App, key: Key) -> (act: Action)
    ensures
        search_step(*old(app), *final(app), key, act),
{
    match key {
        Key::Char(c) => {
            push_char(&mut app.search_query, c);
            Action::Idle
        },
        Key::Backspace => {
            pop_char(&mut app.search_query);
            Action::Idle
        },
        Key::Enter => Action::RunSearch,
        _ => Action::Idle,
    }
}

/// Dispatch one key: the global keys (quit, tab cycling) work
/// everywhere, every other key goes to the active tab's handler; tabs
/// without keys of their own ignore it.
pub fn handle_event(app: &mut App, key: Key) -> (act: Action)
    ensures
        match global_step(*old(app), key) {
            Some(b) => *final(app) == b && act == Action::Idle,
            None => match old(app).active_tab {
                Tab::StockView => stock_view_step(*old(app), *final(app), key, act),
                Tab::Portfolio => portfolio_step(*old(app), *final(app), key, act),
                Tab::Search => search_step(*old(app), *final(app), key, act),
                _ => *final(app) == *old(app) && act == Action::Idle,
            },
        },
{
    let quit: bool = match key {
        Key::Char(c) => c == 'q',
        _ => false,
    };
    if quit {
        app.should_quit = true;
        return Action::Idle;
    }
    match key {
        Key::Tab => {
            app.next_tab();
            return Action::Idle;
        },
        Key::BackTab => {
            app.prev_tab();
            return Action::Idle;
        },
        _ => {},
    }
    match app.active_tab {
        Tab::StockView => handle_alerts_events(app, key),
        Tab::Portfolio => handle_portfolio_events(app, key),
        Tab::Search => handle_search_events(app, key),
        _ => Action::Idle,
    }
}

} // verus!
