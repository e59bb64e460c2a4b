//! A searchable, multi-select terminal menu: the session engine.
//!
//! The library keeps the state of one running menu (which items are visible,
//! which are selected, where the cursor is, what has been typed), decides what
//! each key press does to it, filters the items against fuzzy-search scores,
//! and lays out the text of every frame. Reading keys, scoring strings and
//! writing to the terminal are left to the caller, which hands the results in
//! as plain values.

mod filter;
mod item;
mod keys;
mod laws;
mod menu;
mod options;
mod render;
mod state;
mod text;

pub use item::MenuItem;
pub use laws::{
    lemma_cursor_stays_in_range, lemma_key_keeps_cursor_in_range, lemma_rest_fallback,
    lemma_search_ignores_old_visibility, lemma_search_keeps_cursor_in_range,
    lemma_search_keeps_selection, lemma_selection_survives_search, run, SessionStep,
};
pub use menu::Menu;
pub use options::{
    ConfigError, KeyEvent, MenuOptions, DEFAULT_MAX_LINES_VISIBLE, DEFAULT_SEARCH_THRESHOLD,
    SCORE_SCALE,
};
pub use filter::MatchScores;
pub use keys::KeyOutcome;
pub use render::Frame;
pub use state::{MenuState, MenuStateView, TrackedItem, INITIAL_CURSOR_ROW};
