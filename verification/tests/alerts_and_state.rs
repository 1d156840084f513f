use stockterm::alerts::{Alert, AlertCondition};
use stockterm::app::{App, Tab};
use stockterm::config::Config;
use stockterm::events::Action;
use stockterm::ticker::{TickerResponse, TickerResult};

fn bar(c: u64) -> TickerResult {
    TickerResult { o: c, h: c, l: c, c, v: 1, t: 0 }
}

fn snapshot(symbol: &str, close: u64) -> TickerResponse {
    TickerResponse { ticker: symbol.to_string(), results: vec![bar(close)] }
}

#[test]
fn alert_condition_is_a_strict_comparison() {
    let above = Alert::new("AAPL".to_string(), AlertCondition::Above, 15_000);
    assert!(!above.triggered);
    assert!(above.is_triggered(16_000));
    assert!(!above.is_triggered(15_000));
    assert!(!above.is_triggered(14_000));
    let below = Alert::new("AAPL".to_string(), AlertCondition::Below, 15_000);
    assert!(below.is_triggered(14_000));
    assert!(!below.is_triggered(15_000));
    assert!(!below.is_triggered(16_000));
}

#[test]
fn triggered_alert_stays_triggered_when_the_price_falls_back() {
    let mut app = App::new(Config::default());
    app.symbol = "AAPL".to_string();
    app.add_alert("AAPL".to_string(), AlertCondition::Above, 15_000);
    assert!(!app.alerts[0].triggered);

    app.apply_ticker_fetch(Ok(snapshot("AAPL", 16_000)));
    app.check_alerts();
    assert!(app.alerts[0].triggered);

    app.apply_ticker_fetch(Ok(snapshot("AAPL", 14_000)));
    app.check_alerts();
    assert!(app.alerts[0].triggered);
    // The sticky flag is mirrored for persistence.
    assert!(app.config.alerts[0].triggered);
}

#[test]
fn untriggered_alert_stays_quiet_without_a_price() {
    let mut app = App::new(Config::default());
    app.add_alert("AAPL".to_string(), AlertCondition::Above, 15_000);
    app.check_alerts();
    assert!(!app.alerts[0].triggered);
}

#[test]
fn check_alerts_uses_the_portfolio_price_for_other_symbols() {
    let mut app = App::new(Config::default());
    app.symbol = "MSFT".to_string();
    app.add_to_portfolio(1, 10_000);
    app.portfolio[0].current_price = Some(9_000);
    app.add_alert("MSFT".to_string(), AlertCondition::Below, 9_500);
    // The live snapshot is for another symbol, so the cached portfolio
    // price decides.
    app.ticker_data = Some(snapshot("AAPL", 16_000));
    app.check_alerts();
    assert!(app.alerts[0].triggered);
}

#[test]
fn remove_alert_out_of_range_is_a_no_op() {
    let mut app = App::new(Config::default());
    app.add_alert("AAPL".to_string(), AlertCondition::Above, 15_000);
    app.remove_alert(1);
    app.remove_alert(99);
    assert_eq!(app.alerts.len(), 1);
    app.remove_alert(0);
    assert!(app.alerts.is_empty());
    app.remove_alert(0);
    assert!(app.alerts.is_empty());
}

#[test]
fn six_forward_steps_return_to_the_start_and_back_undoes_forward() {
    let tabs = [
        Tab::StockView,
        Tab::Portfolio,
        Tab::Search,
        Tab::News,
        Tab::Charts,
        Tab::Settings,
    ];
    for start in tabs {
        let mut app = App::new(Config::default());
        app.active_tab = start;
        for _ in 0..6 {
            app.next_tab();
        }
        assert_eq!(app.active_tab, start);
        app.next_tab();
        app.prev_tab();
        assert_eq!(app.active_tab, start);
        app.prev_tab();
        app.next_tab();
        assert_eq!(app.active_tab, start);
    }
}

#[test]
fn new_app_starts_on_the_stock_view_with_the_configured_symbol() {
    let mut config = Config::default();
    config.default_symbol = "TSLA".to_string();
    let app = App::new(config);
    assert_eq!(app.symbol, "TSLA");
    assert_eq!(app.active_tab, Tab::StockView);
    assert!(app.ticker_data.is_none());
    assert!(app.error_message.is_none());
    assert!(!app.should_quit);

    let fallback = App::new(Config::default());
    assert_eq!(fallback.symbol, "AAPL");
}

#[test]
fn ticker_fetch_updates_the_held_symbols_cached_price() {
    let mut app = App::new(Config::default());
    app.symbol = "AAPL".to_string();
    app.add_to_portfolio(10, 10_000);
    assert_eq!(app.portfolio[0].current_price, None);
    app.apply_ticker_fetch(Ok(snapshot("AAPL", 12_345)));
    assert_eq!(app.portfolio[0].current_price, Some(12_345));
    assert!(app.error_message.is_none());
}

#[test]
fn failed_fetches_clear_data_and_leave_a_message() {
    let mut app = App::new(Config::default());
    app.apply_ticker_fetch(Ok(snapshot("AAPL", 12_345)));
    app.apply_ticker_fetch(Err("connection refused".to_string()));
    assert!(app.ticker_data.is_none());
    assert_eq!(
        app.error_message.as_deref(),
        Some("Error fetching ticker data: connection refused")
    );

    app.apply_historical_fetch(Err("timed out".to_string()));
    assert_eq!(
        app.error_message.as_deref(),
        Some("Error fetching historical data: timed out")
    );

    app.apply_search_results(Err("bad gateway".to_string()));
    assert_eq!(
        app.error_message.as_deref(),
        Some("Error searching symbols: bad gateway")
    );

    app.apply_news_fetch(Err("no route".to_string()));
    assert_eq!(app.error_message.as_deref(), Some("Error fetching news: no route"));

    // A later success clears the message again.
    app.apply_ticker_fetch(Ok(snapshot("AAPL", 10)));
    assert!(app.error_message.is_none());
    assert!(app.ticker_data.is_some());
}

#[test]
fn current_price_prefers_the_live_snapshot() {
    let mut app = App::new(Config::default());
    app.symbol = "AAPL".to_string();
    app.add_to_portfolio(1, 10_000);
    app.portfolio[0].current_price = Some(9_000);
    assert_eq!(app.get_current_price(&"AAPL".to_string()), Some(9_000));
    app.apply_ticker_fetch(Ok(snapshot("AAPL", 16_000)));
    assert_eq!(app.get_current_price(&"AAPL".to_string()), Some(16_000));
    assert_eq!(app.get_current_price(&"MSFT".to_string()), None);
}

#[test]
fn tick_refreshes_what_the_active_tab_shows() {
    let mut app = App::new(Config::default());
    app.active_tab = Tab::StockView;
    assert_eq!(app.tick_action(), Action::FetchTicker);
    app.active_tab = Tab::Charts;
    assert_eq!(app.tick_action(), Action::FetchHistorical);
    app.active_tab = Tab::News;
    assert_eq!(app.tick_action(), Action::FetchNews);
    app.active_tab = Tab::Portfolio;
    assert_eq!(app.tick_action(), Action::Idle);
    app.active_tab = Tab::Settings;
    assert_eq!(app.tick_action(), Action::Idle);
}

#[test]
fn config_load_without_a_file_yields_the_empty_default() {
    let config = Config::from_loaded(None);
    assert!(config.portfolio.is_empty());
    assert!(config.alerts.is_empty());
    assert_eq!(config.default_symbol, "");
    assert_eq!(config.api_key, "");
    assert_eq!(config.refresh_rate, 0);
    assert!(config.theme.is_none());
}

#[test]
fn config_load_keeps_a_parsed_file_as_it_is() {
    let mut saved = Config::default();
    saved.default_symbol = "NVDA".to_string();
    saved.refresh_rate = 5;
    saved.alerts.push(Alert::new("NVDA".to_string(), AlertCondition::Below, 50_000));
    let loaded = Config::from_loaded(Some(saved));
    assert_eq!(loaded.default_symbol, "NVDA");
    assert_eq!(loaded.refresh_rate, 5);
    assert_eq!(loaded.alerts.len(), 1);
    assert_eq!(loaded.alerts[0].price_cents, 50_000);
}
