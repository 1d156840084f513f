use stockterm::app::App;
use stockterm::config::Config;
use stockterm::portfolio::PortfolioItem;

fn fresh_app(symbol: &str) -> App {
    let mut app = App::new(Config::default());
    app.symbol = symbol.to_string();
    app
}

#[test]
fn adding_two_lots_keeps_the_weighted_average_exact() {
    let mut app = fresh_app("AAPL");
    app.add_to_portfolio(10, 10_000);
    assert_eq!(app.portfolio.len(), 1);
    assert_eq!(app.portfolio[0].symbol, "AAPL");
    assert_eq!(app.portfolio[0].shares, 10);
    assert_eq!(app.portfolio[0].purchase_price(), 10_000);

    app.add_to_portfolio(10, 12_000);
    assert_eq!(app.portfolio.len(), 1);
    assert_eq!(app.portfolio[0].shares, 20);
    assert_eq!(app.portfolio[0].purchase_price(), 11_000);
    assert_eq!(app.portfolio[0].cost_basis(), 220_000);
}

#[test]
fn cost_basis_is_the_sum_over_all_lots() {
    let mut app = fresh_app("MSFT");
    let lots: Vec<(u64, u64)> = vec![(3, 101), (7, 999), (1, 25_000), (12, 4_400)];
    let mut expected_shares: u64 = 0;
    let mut expected_cost: u64 = 0;
    for (shares, price) in &lots {
        app.add_to_portfolio(*shares, *price);
        expected_shares += shares;
        expected_cost += shares * price;
    }
    assert_eq!(app.portfolio.len(), 1);
    assert_eq!(app.portfolio[0].shares, expected_shares);
    assert_eq!(app.portfolio[0].cost_basis(), expected_cost);
}

#[test]
fn adding_with_empty_symbol_changes_nothing() {
    let mut app = fresh_app("");
    app.add_to_portfolio(10, 10_000);
    assert!(app.portfolio.is_empty());
}

#[test]
fn adding_a_second_symbol_appends_a_new_holding() {
    let mut app = fresh_app("AAPL");
    app.add_to_portfolio(5, 20_000);
    app.symbol = "MSFT".to_string();
    app.add_to_portfolio(2, 30_000);
    assert_eq!(app.portfolio.len(), 2);
    assert_eq!(app.portfolio[0].symbol, "AAPL");
    assert_eq!(app.portfolio[1].symbol, "MSFT");
    assert_eq!(app.portfolio[1].cost_basis(), 60_000);
}

#[test]
fn remove_from_portfolio_out_of_range_is_a_no_op() {
    let mut app = fresh_app("AAPL");
    app.add_to_portfolio(5, 20_000);
    app.remove_from_portfolio(1);
    app.remove_from_portfolio(17);
    assert_eq!(app.portfolio.len(), 1);
    assert_eq!(app.portfolio[0].shares, 5);
    app.remove_from_portfolio(0);
    assert!(app.portfolio.is_empty());
    app.remove_from_portfolio(0);
    assert!(app.portfolio.is_empty());
}

#[test]
fn portfolio_mutations_are_mirrored_into_the_config() {
    let mut app = fresh_app("AAPL");
    app.add_to_portfolio(5, 20_000);
    assert_eq!(app.config.portfolio.len(), 1);
    assert_eq!(app.config.portfolio[0].symbol, "AAPL");
    assert_eq!(app.config.portfolio[0].cost_basis(), 100_000);
    app.remove_from_portfolio(0);
    assert!(app.config.portfolio.is_empty());
}

#[test]
fn item_market_value_and_profit_loss() {
    let mut item = PortfolioItem::new("AAPL".to_string(), 10, 10_000);
    assert_eq!(item.market_value(), None);
    assert_eq!(item.profit_loss(), None);
    assert_eq!(item.profit_loss_percent(), None);
    item.current_price = Some(11_000);
    assert_eq!(item.market_value(), Some(110_000));
    assert_eq!(item.profit_loss(), Some(10_000));
    assert_eq!(item.profit_loss_percent(), Some(1_000));
    item.current_price = Some(9_000);
    assert_eq!(item.profit_loss(), Some(-10_000));
    assert_eq!(item.profit_loss_percent(), Some(-1_000));
}

#[test]
fn zero_cost_holding_has_zero_profit_percent() {
    let mut item = PortfolioItem::new("FREE".to_string(), 4, 0);
    item.current_price = Some(100);
    assert_eq!(item.profit_loss(), Some(400));
    assert_eq!(item.profit_loss_percent(), Some(0));
}

#[test]
fn portfolio_totals_sum_over_holdings() {
    let mut app = fresh_app("AAPL");
    app.add_to_portfolio(10, 10_000);
    app.symbol = "MSFT".to_string();
    app.add_to_portfolio(4, 25_000);
    assert_eq!(app.calculate_portfolio_cost(), 200_000);
    // No prices known yet: market value counts nothing.
    assert_eq!(app.calculate_portfolio_value(), 0);
    app.portfolio[0].current_price = Some(12_000);
    app.portfolio[1].current_price = Some(20_000);
    assert_eq!(app.calculate_portfolio_value(), 200_000);
    assert_eq!(app.calculate_portfolio_profit_loss(), 0);
    app.portfolio[1].current_price = Some(30_000);
    assert_eq!(app.calculate_portfolio_value(), 240_000);
    assert_eq!(app.calculate_portfolio_profit_loss(), 40_000);
}
