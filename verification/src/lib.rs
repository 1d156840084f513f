//! Terminal stock dashboard: application state, portfolio and alert
//! bookkeeping, tab navigation, input dispatch, chart scaling and the
//! query URLs for the market-data service, all with verified contracts.
//! Terminal rendering, HTTP and the config file live in the surrounding
//! binary; this crate holds the logic they drive.

pub mod alerts;
pub mod api;
pub mod app;
pub mod charts;
pub mod config;
pub mod dates;
pub mod events;
pub mod handlers;
pub mod historical;
pub mod news;
pub mod portfolio;
pub mod search;
pub mod text;
pub mod ticker;
