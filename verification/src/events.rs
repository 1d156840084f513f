use crate::app::{App, Tab};
use vstd::prelude::*;

verus! {

/// One event delivered to the main loop: a key press carried from the
/// input thread, or a timer tick. The producer pushes both into one
/// ordered channel, so the loop sees them in the order they happened.
#[derive(PartialEq, Debug)]
pub enum Event<I> {
    Input(I),
    Tick,
}

/// The outside work the main loop is asked to do after a state step:
/// nothing, or one of the four service calls.
#[derive(Clone, Copy, PartialEq, Eq, Structural, Debug)]
pub enum Action {
    Idle,
    FetchTicker,
    FetchHistorical,
    FetchNews,
    RunSearch,
}

/// Which fetch a timer tick schedules: the tab being looked at decides.
pub open spec fn tick_action_spec(t: Tab) -> Action {
    match t {
        Tab::StockView => Action::FetchTicker,
        Tab::Charts => Action::FetchHistorical,
        Tab::News => Action::FetchNews,
        _ => Action::Idle,
    }
}

impl App {
    /// The periodic refresh a timer tick asks for, decided by the active
    /// tab: the stock view refreshes the ticker, the chart its series,
    /// the news panel its articles, and the other tabs nothing.
    pub fn tick_action(&self) -> (r: Action)
        ensures
            r == tick_action_spec(self.active_tab),
    {
        match self.active_tab {
            Tab::StockView => Action::FetchTicker,
            Tab::Charts => Action::FetchHistorical,
            Tab::News => Action::FetchNews,
            _ => Action::Idle,
        }
    }
}

} // verus!
