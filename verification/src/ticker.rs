use crate::portfolio::div_toward_zero;
use vstd::prelude::*;

verus! {

/// One aggregated OHLCV bar of the live ticker snapshot: open, high, low
/// and close in integer cents, the traded volume, and the bar's
/// timestamp in milliseconds.
#[derive(Clone, Copy, PartialEq, Eq, Structural, Debug)]
pub struct TickerResult {
    pub o: u64,
    pub h: u64,
    pub l: u64,
    pub c: u64,
    pub v: u64,
    pub t: u64,
}

/// The ticker snapshot for one symbol; the first bar carries the current
/// price. Replaced wholesale on every fetch.
pub struct TickerResponse {
    pub ticker: String,
    pub results: Vec<TickerResult>,
}

/// Spec-level image of a snapshot: the symbol as a character sequence.
pub struct TickerResponseV {
    pub ticker: Seq<char>,
    pub results: Seq<TickerResult>,
}

impl View for TickerResponse {
    type V = TickerResponseV;

    open spec fn view(&self) -> TickerResponseV {
        TickerResponseV { ticker: self.ticker@, results: self.results@ }
    }
}

impl TickerResult {
    /// The bar's absolute change, close minus open, in cents.
    pub fn price_change_cents(&self) -> (r: i64)
        requires
            self.c <= i64::MAX,
            self.o <= i64::MAX,
        ensures
            r == self.c - self.o,
    {
        self.c as i64 - self.o as i64
    }

    /// The bar's relative change in basis points (hundredths of a
    /// percent) of the open, rounded toward zero.
    pub fn percent_change_bp(&self) -> (r: i64)
        requires
            self.o > 0,
            (self.c - self.o) * 10000 <= i64::MAX,
            (self.o - self.c) * 10000 <= i64::MAX,
        ensures
            r == div_toward_zero((self.c - self.o) * 10000, self.o as int),
    {
        if self.c >= self.o {
            let diff: u64 = self.c - self.o;
            let bp: u64 = diff * 10000 / self.o;
            proof {
                crate::portfolio::lemma_div_shrinks(diff * 10000, self.o as int);
            }
            bp as i64
        } else {
            let diff: u64 = self.o - self.c;
            let bp: u64 = diff * 10000 / self.o;
            proof {
                crate::portfolio::lemma_div_shrinks(diff * 10000, self.o as int);
            }
            -(bp as i64)
        }
    }

    /// Whether the bar closed at or above its open: rising bars draw
    /// green, falling ones red.
    pub fn rising(&self) -> (r: bool)
        ensures
            r == (self.c >= self.o),
    {
        self.c >= self.o
    }
}

} // verus!
