use stockterm::api;
use stockterm::app::{App, Tab};
use stockterm::charts::{chart_bounds, ChartBounds};
use stockterm::config::Config;
use stockterm::dates::historical_range;
use stockterm::events::Action;
use stockterm::handlers::{handle_event, Key};
use stockterm::historical::HistoricalData;
use stockterm::ticker::TickerResult;

fn day(t: u64, c: u64) -> HistoricalData {
    HistoricalData { o: c, h: c, l: c, c, v: 10, t, vw: c, n: None }
}

#[test]
fn chart_bounds_pad_the_close_range_by_a_tenth() {
    let bars = vec![day(1_000, 10_000), day(2_000, 20_000), day(3_000, 15_000)];
    let b: ChartBounds = chart_bounds(&bars);
    assert_eq!(b.t_min, 1_000);
    assert_eq!(b.t_max, 3_000);
    // min 10000, max 20000, spread 10000; bounds in tenths of a cent:
    // 10 * 10000 - 10000 and 10 * 20000 + 10000.
    assert_eq!(b.y_lo_tenths, 90_000);
    assert_eq!(b.y_hi_tenths, 210_000);
}

#[test]
fn chart_bounds_of_a_flat_series_collapse_to_the_close() {
    let bars = vec![day(5, 777)];
    let b = chart_bounds(&bars);
    assert_eq!(b.t_min, 5);
    assert_eq!(b.t_max, 5);
    assert_eq!(b.y_lo_tenths, 7_770);
    assert_eq!(b.y_hi_tenths, 7_770);
}

#[test]
fn query_urls_are_spliced_exactly() {
    assert_eq!(
        api::ticker_url("AAPL", "2024-01-01", "2024-01-31", "KEY"),
        "https://api.polygon.io/v2/aggs/ticker/AAPL/range/1/day/2024-01-01/2024-01-31?apiKey=KEY"
    );
    assert_eq!(
        api::historical_url("MSFT", "day", "2024-01-01", "2024-01-31", "KEY"),
        "https://api.polygon.io/v2/aggs/ticker/MSFT/range/1/day/2024-01-01/2024-01-31?apiKey=KEY"
    );
    assert_eq!(
        api::search_url("micro", "KEY"),
        "https://api.polygon.io/v3/reference/tickers?search=micro&active=true&apiKey=KEY"
    );
    assert_eq!(
        api::news_url("AAPL", "KEY"),
        "https://api.polygon.io/v2/reference/news?ticker=AAPL&apiKey=KEY"
    );
}

#[test]
fn historical_range_formats_the_window_ends() {
    // 2023-11-14T22:13:20Z, and thirty days earlier.
    let (from, to) = historical_range(1_700_000_000_000);
    assert_eq!(to, "2023-11-14");
    assert_eq!(from, "2023-10-15");
}

#[test]
fn trailing_month_window_yields_two_dates() {
    let (from, to) = stockterm::dates::trailing_month_window();
    for date in [&from, &to] {
        assert_eq!(date.len(), 10);
        let bytes = date.as_bytes();
        assert_eq!(bytes[4], b'-');
        assert_eq!(bytes[7], b'-');
    }
    assert!(from < to);
}

#[test]
fn events_carry_input_or_tick() {
    let pressed: stockterm::events::Event<Key> = stockterm::events::Event::Input(Key::Enter);
    let tick: stockterm::events::Event<Key> = stockterm::events::Event::Tick;
    assert!(matches!(pressed, stockterm::events::Event::Input(Key::Enter)));
    assert!(matches!(tick, stockterm::events::Event::Tick));
}

#[test]
fn percent_change_is_in_basis_points() {
    let up = TickerResult { o: 10_000, h: 11_000, l: 9_900, c: 11_000, v: 1, t: 0 };
    assert_eq!(up.price_change_cents(), 1_000);
    assert_eq!(up.percent_change_bp(), 1_000);
    assert!(up.rising());
    let down = TickerResult { o: 10_000, h: 10_000, l: 9_000, c: 9_250, v: 1, t: 0 };
    assert_eq!(down.price_change_cents(), -750);
    assert_eq!(down.percent_change_bp(), -750);
    assert!(!down.rising());
}

#[test]
fn quit_and_tab_keys_work_on_every_tab() {
    let mut app = App::new(Config::default());
    assert_eq!(handle_event(&mut app, Key::Tab), Action::Idle);
    assert_eq!(app.active_tab, Tab::Portfolio);
    assert_eq!(handle_event(&mut app, Key::BackTab), Action::Idle);
    assert_eq!(app.active_tab, Tab::StockView);
    handle_event(&mut app, Key::Char('q'));
    assert!(app.should_quit);
}

#[test]
fn stock_view_keys_edit_the_symbol_and_ask_for_a_fetch() {
    let mut app = App::new(Config::default());
    app.symbol = String::new();
    handle_event(&mut app, Key::Char('A'));
    handle_event(&mut app, Key::Char('M'));
    handle_event(&mut app, Key::Char('x'));
    assert_eq!(app.symbol, "AM");
    handle_event(&mut app, Key::Backspace);
    assert_eq!(app.symbol, "A");
    assert_eq!(handle_event(&mut app, Key::Enter), Action::FetchTicker);
}

#[test]
fn stock_view_alert_keys_manage_the_alert_list() {
    let mut app = App::new(Config::default());
    app.symbol = "AAPL".to_string();
    handle_event(&mut app, Key::Char('a'));
    assert_eq!(app.alerts.len(), 1);
    assert_eq!(app.alerts[0].symbol, "AAPL");
    assert_eq!(app.alerts[0].price_cents, 10_000);
    // Nothing selected: delete does nothing.
    handle_event(&mut app, Key::Char('d'));
    assert_eq!(app.alerts.len(), 1);
    handle_event(&mut app, Key::Char('a'));
    handle_event(&mut app, Key::Down);
    assert_eq!(app.alerts_sel, Some(1));
    handle_event(&mut app, Key::Char('d'));
    assert_eq!(app.alerts.len(), 1);
}

#[test]
fn portfolio_keys_buy_remove_and_jump() {
    let mut app = App::new(Config::default());
    app.symbol = "AAPL".to_string();
    app.active_tab = Tab::Portfolio;
    handle_event(&mut app, Key::Char('a'));
    assert_eq!(app.portfolio.len(), 1);
    assert_eq!(app.portfolio[0].shares, 1);
    assert_eq!(app.portfolio[0].purchase_price(), 10_000);
    handle_event(&mut app, Key::Char('a'));
    assert_eq!(app.portfolio.len(), 1);
    assert_eq!(app.portfolio[0].shares, 2);

    app.symbol = "MSFT".to_string();
    handle_event(&mut app, Key::Char('a'));
    assert_eq!(app.portfolio.len(), 2);

    // Walk the selection down and jump to the selected holding.
    handle_event(&mut app, Key::Down);
    assert_eq!(app.portfolio_sel, Some(1));
    handle_event(&mut app, Key::Down);
    assert_eq!(app.portfolio_sel, Some(1));
    assert_eq!(handle_event(&mut app, Key::Enter), Action::FetchTicker);
    assert_eq!(app.active_tab, Tab::StockView);
    assert_eq!(app.symbol, "MSFT");

    app.active_tab = Tab::Portfolio;
    handle_event(&mut app, Key::Char('d'));
    assert_eq!(app.portfolio.len(), 1);
    assert_eq!(app.portfolio[0].symbol, "AAPL");
}

#[test]
fn selection_clamps_at_both_ends() {
    let mut app = App::new(Config::default());
    app.active_tab = Tab::Portfolio;
    handle_event(&mut app, Key::Up);
    assert_eq!(app.portfolio_sel, None);
    handle_event(&mut app, Key::Down);
    assert_eq!(app.portfolio_sel, None);
    app.symbol = "AAPL".to_string();
    handle_event(&mut app, Key::Char('a'));
    handle_event(&mut app, Key::Down);
    assert_eq!(app.portfolio_sel, None);
    app.symbol = "MSFT".to_string();
    handle_event(&mut app, Key::Char('a'));
    handle_event(&mut app, Key::Down);
    assert_eq!(app.portfolio_sel, Some(1));
    handle_event(&mut app, Key::Up);
    assert_eq!(app.portfolio_sel, Some(0));
    handle_event(&mut app, Key::Up);
    assert_eq!(app.portfolio_sel, Some(0));
}

#[test]
fn search_tab_keys_edit_the_query() {
    let mut app = App::new(Config::default());
    app.active_tab = Tab::Search;
    handle_event(&mut app, Key::Char('a'));
    handle_event(&mut app, Key::Char('m'));
    handle_event(&mut app, Key::Char('d'));
    assert_eq!(app.search_query, "amd");
    handle_event(&mut app, Key::Backspace);
    assert_eq!(app.search_query, "am");
    assert_eq!(handle_event(&mut app, Key::Enter), Action::RunSearch);
    // Alert and portfolio keys do not leak into the search tab.
    assert!(app.alerts.is_empty());
    assert!(app.portfolio.is_empty());
}
