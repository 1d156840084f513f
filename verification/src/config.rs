use crate::alerts::{alerts_view, Alert, AlertV};
use crate::portfolio::{items_view, PortfolioItem, PortfolioItemV};
use vstd::prelude::*;

verus! {

/// The persisted settings: portfolio, alerts, refresh rate, API key,
/// default symbol and an optional theme name. Loaded once at start,
/// mutated in memory by portfolio and alert operations, and written back
/// by the surrounding binary after each such mutation.
pub struct Config {
    pub portfolio: Vec<PortfolioItem>,
    pub refresh_rate: u64,
    pub api_key: String,
    pub alerts: Vec<Alert>,
    pub default_symbol: String,
    pub theme: Option<String>,
}

/// Spec-level image of the settings: strings as character sequences.
pub struct ConfigV {
    pub portfolio: Seq<PortfolioItemV>,
    pub refresh_rate: u64,
    pub api_key: Seq<char>,
    pub alerts: Seq<AlertV>,
    pub default_symbol: Seq<char>,
    pub theme: Option<Seq<char>>,
}

impl View for Config {
    type V = ConfigV;

    open spec fn view(&self) -> ConfigV {
        ConfigV {
            portfolio: items_view(self.portfolio@),
            refresh_rate: self.refresh_rate,
            api_key: self.api_key@,
            alerts: alerts_view(self.alerts@),
            default_symbol: self.default_symbol@,
            theme: match self.theme {
                Some(t) => Some(t@),
                None => None,
            },
        }
    }
}

/// A configuration with nothing in it: no holdings, no alerts, empty
/// key and symbol, no theme, and a zero refresh rate.
pub open spec fn is_empty_config(c: ConfigV) -> bool {
    &&& c.portfolio.len() == 0
    &&& c.refresh_rate == 0
    &&& c.api_key.len() == 0
    &&& c.alerts.len() == 0
    &&& c.default_symbol.len() == 0
    &&& c.theme is None
}

impl Default for Config {
    /// The configuration used when nothing was ever saved.
    fn default() -> (r: Self)
        ensures
            is_empty_config(r@),
    {
        Config {
            portfolio: Vec::new(),
            refresh_rate: 0,
            api_key: String::new(),
            alerts: Vec::new(),
            default_symbol: String::new(),
            theme: None,
        }
    }
}

impl Config {
    /// The decision half of loading: a configuration that was read and
    /// parsed from disk is kept as it is; a missing or malformed file
    /// falls back to the empty default.
    pub fn from_loaded(loaded: Option<Config>) -> (r: Config)
        ensures
            match loaded {
                Some(c) => r == c,
                None => is_empty_config(r@),
            },
    {
        match loaded {
            Some(c) => c,
            None => Config::default(),
        }
    }
}

} // verus!
