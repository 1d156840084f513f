use vstd::prelude::*;

verus! {

/// The query URLs of the market-data service. Each is the fixed base
/// address and path with the symbol, dates, query and API key spliced
/// in; the surrounding binary issues the request and parses the JSON
/// body.
///
/// Aggregate bars for a symbol over a date range, one bar per day.
pub fn ticker_url(symbol: &str, from: &str, to: &str, api_key: &str) -> (r: String)
    ensures
        r@ == "https://api.polygon.io/v2/aggs/ticker/"@ + symbol@ + "/range/1/day/"@ + from@
            + "/"@ + to@ + "?apiKey="@ + api_key@,
{
    let mut url = "https://api.polygon.io/v2/aggs/ticker/".to_owned();
    url.append(symbol);
    url.append("/range/1/day/");
    url.append(from);
    url.append("/");
    url.append(to);
    url.append("?apiKey=");
    url.append(api_key);
    url
}

/// Aggregate bars for a symbol over a date range, one bar per timespan
/// unit.
pub fn historical_url(symbol: &str, timespan: &str, from: &str, to: &str, api_key: &str) -> (r:
    String)
    ensures
        r@ == "https://api.polygon.io/v2/aggs/ticker/"@ + symbol@ + "/range/1/"@ + timespan@
            + "/"@ + from@ + "/"@ + to@ + "?apiKey="@ + api_key@,
{
    let mut url = "https://api.polygon.io/v2/aggs/ticker/".to_owned();
    url.append(symbol);
    url.append("/range/1/");
    url.append(timespan);
    url.append("/");
    url.append(from);
    url.append("/");
    url.append(to);
    url.append("?apiKey=");
    url.append(api_key);
    url
}

/// Active listings whose name or ticker matches the query.
pub fn search_url(query: &str, api_key: &str) -> (r: String)
    ensures
        r@ == "https://api.polygon.io/v3/reference/tickers?search="@ + query@
            + "&active=true&apiKey="@ + api_key@,
{
    let mut url = "https://api.polygon.io/v3/reference/tickers?search=".to_owned();
    url.append(query);
    url.append("&active=true&apiKey=");
    url.append(api_key);
    url
}

/// News articles about a symbol.
pub fn news_url(symbol: &str, api_key: &str) -> (r: String)
    ensures
        r@ == "https://api.polygon.io/v2/reference/news?ticker="@ + symbol@ + "&apiKey="@
            + api_key@,
{
    let mut url = "https://api.polygon.io/v2/reference/news?ticker=".to_owned();
    url.append(symbol);
    url.append("&apiKey=");
    url.append(api_key);
    url
}

} // verus!
