//! Session picker and agents dashboard of the Codex terminal interface.
//!
//! The crate holds the picker's state machine, its list layout and the text that it shows.
//! Terminal input and output, the app-server connection and the clock live outside: they hand
//! plain values in and carry out the requests that the picker queues.

pub mod action_laws;
pub mod agents;
pub mod archive;
pub mod bootstrap;
pub mod composer;
pub mod composer_keys;
pub mod dashboard;
pub mod distinct_events;
pub mod distinct_rows;
pub mod draw;
pub mod drawn_laws;
pub mod event_laws;
pub mod events;
pub mod filter;
pub mod frame;
pub mod header;
pub mod hints;
pub mod history;
pub mod ids;
pub mod invariants;
pub mod keyboard;
pub mod keys;
pub mod launch;
pub mod laws;
pub mod layout;
pub mod list_laws;
pub mod live_laws;
pub mod live_rows;
pub mod loader;
pub mod loading;
pub mod metadata;
pub mod open_laws;
pub mod order;
pub mod pagination;
pub mod paging_laws;
pub mod paths;
pub mod picker;
pub mod preview;
pub mod progress;
pub mod protocol;
pub mod render_card;
pub mod render_row;
pub mod render_session;
pub mod row;
pub mod run;
pub mod scroll;
pub mod scroll_laws;
pub mod search;
pub mod session;
pub mod sort;
pub mod style;
pub mod text;
pub mod text_laws;
pub mod time;
pub mod toolbar;
pub mod transcript;
