use vstd::prelude::*;

verus! {

/// A page of news articles for one symbol. Read-only projection of the
/// service's response; the dashboard only stores and shows it.
pub struct NewsResponse {
    pub status: String,
    pub count: u32,
    pub results: Vec<NewsItem>,
}

/// One news article.
pub struct NewsItem {
    pub id: String,
    pub publisher: Publisher,
    pub title: String,
    pub author: Option<String>,
    pub published_utc: String,
    pub article_url: String,
    pub tickers: Vec<String>,
    pub amp_url: Option<String>,
    pub image_url: Option<String>,
    pub description: Option<String>,
    pub keywords: Vec<String>,
}

/// The outlet an article came from.
pub struct Publisher {
    pub name: String,
    pub homepage_url: String,
    pub logo_url: String,
    pub favicon_url: String,
}

} // verus!
