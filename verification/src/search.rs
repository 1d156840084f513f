use vstd::prelude::*;

verus! {

/// A page of symbol-search matches. Read-only projection of the
/// service's response; the dashboard only stores and shows it.
pub struct SymbolSearchResponse {
    pub status: String,
    pub count: u32,
    pub results: Vec<SymbolResult>,
}

/// One matching listing.
pub struct SymbolResult {
    pub ticker: String,
    pub name: String,
    pub market: String,
    pub locale: String,
    pub primary_exchange: String,
    pub type_: String,
    pub active: bool,
    pub currency_name: String,
    pub cik: Option<String>,
    pub composite_figi: Option<String>,
    pub share_class_figi: Option<String>,
    pub last_updated_utc: String,
}

} // verus!
