//! A terminal dashboard core: the feed data model, each panel's display
//! state, the grid layout, the orchestrator's dispatch rules and the
//! decisions of the per-panel fetch loop.

pub mod dashboard;
pub mod feeds;
pub mod fetch_loop;
pub mod layout;
pub mod panel;

pub use dashboard::{App, Command, Config, Event, KeyCode, KeyPress, WidgetConfig};
pub use feeds::{FeedData, FeedMessage, HnFetcher, HnStory, RssItem, SportsEvent, StockQuote, StocksFetcher};
pub use fetch_loop::{FetchLoop, LoopAction, LoopPhase};
pub use layout::{CellRect, Placement};
pub use panel::{FeedSource, FeedWidget, Panel};
