use vstd::prelude::*;

verus! {

/// The historical series for one symbol over a date range. Replaced
/// wholesale on every fetch.
pub struct HistoricalResponse {
    pub ticker: String,
    pub results: Vec<HistoricalData>,
    pub status: String,
    pub request_id: String,
    pub count: u32,
}

/// One daily OHLCV bar of a historical series: prices in integer cents
/// (including the volume-weighted average price `vw`), the volume, the
/// bar's timestamp in milliseconds, and an optional trade count.
#[derive(Clone, Copy, PartialEq, Debug)]
pub struct HistoricalData {
    pub o: u64,
    pub h: u64,
    pub l: u64,
    pub c: u64,
    pub v: u64,
    pub t: u64,
    pub vw: u64,
    pub n: Option<u64>,
}

/// Spec-level image of a historical series: strings as character
/// sequences, the bars as they are.
pub struct HistoricalResponseV {
    pub ticker: Seq<char>,
    pub results: Seq<HistoricalData>,
    pub status: Seq<char>,
    pub request_id: Seq<char>,
    pub count: u32,
}

impl View for HistoricalResponse {
    type V = HistoricalResponseV;

    open spec fn view(&self) -> HistoricalResponseV {
        HistoricalResponseV {
            ticker: self.ticker@,
            results: self.results@,
            status: self.status@,
            request_id: self.request_id@,
            count: self.count,
        }
    }
}

} // verus!
