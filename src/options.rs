use vstd::prelude::*;
use vstd::string::*;

verus! {

/// Search scores are similarities in `[0, 1]` written as whole millionths.
pub const SCORE_SCALE: u32 = 1_000_000;

/// The default minimum search score, in millionths.
pub const DEFAULT_SEARCH_THRESHOLD: u32 = 5_000;

/// The default cap on item rows drawn in one frame.
pub const DEFAULT_MAX_LINES_VISIBLE: usize = 10;

/// A key press, as far as the menu tells keys apart.
#[derive(Clone, Copy, Debug, PartialEq, Eq, Structural)]
pub enum KeyEvent {
    Char(char),
    Backspace,
    ArrowUp,
    ArrowDown,
    ArrowLeft,
    ArrowRight,
    Tab,
    Enter,
    Other,
}

/// Why a configuration was refused.
#[derive(Clone, Copy, Debug, PartialEq, Eq, Structural)]
pub enum ConfigError {
    /// The minimum search score was not below one whole (`SCORE_SCALE` millionths).
    ThresholdOutOfRange,
}

/// How a menu looks and behaves.
#[derive(Clone, Debug, PartialEq)]
pub struct MenuOptions {
    /// Drawn in front of the row under the cursor.
    pub cursor: String,
    /// The width given to the cursor column.
    pub cursor_width: usize,
    /// Drawn in front of selected rows.
    pub selected_indicator: String,
    /// The width given to the selection column.
    pub selected_indicator_width: usize,
    /// The key that toggles the selection of the row under the cursor.
    pub select_key: KeyEvent,
    /// The most item rows drawn in one frame.
    pub max_lines_visible: usize,
    /// The score, in millionths, that an item must exceed to match a search.
    pub min_search_threshold: u32,
    /// Whether selected items stay visible during searches they do not match.
    pub show_select_in_search: bool,
    /// Whether the menu should end with the first selection.
    pub only_one: bool,
    /// Whether the menu should be erased from the terminal when it closes.
    pub clear_menu_on_exit: bool,
}

/// What the default configuration holds.
pub open spec fn is_default_options(o: MenuOptions) -> bool {
    &&& o.cursor@ == seq!['>']
    &&& o.cursor_width == 1
    &&& o.selected_indicator@ == seq!['X']
    &&& o.selected_indicator_width == 1
    &&& o.select_key == KeyEvent::Char(' ')
    &&& o.max_lines_visible == DEFAULT_MAX_LINES_VISIBLE
    &&& o.min_search_threshold == DEFAULT_SEARCH_THRESHOLD
    &&& o.show_select_in_search
    &&& !o.only_one
    &&& o.clear_menu_on_exit
}

impl Default for MenuOptions {
    fn default() -> (r: Self)
        ensures
            is_default_options(r),
    {
        let cursor = String::from_str(">");
        let selected_indicator = String::from_str("X");
        proof {
            reveal_strlit(">");
            reveal_strlit("X");
            assert(cursor@ =~= seq!['>']);
            assert(selected_indicator@ =~= seq!['X']);
        }
        MenuOptions {
            cursor,
            cursor_width: 1,
            selected_indicator,
            selected_indicator_width: 1,
            select_key: KeyEvent::Char(' '),
            max_lines_visible: DEFAULT_MAX_LINES_VISIBLE,
            min_search_threshold: DEFAULT_SEARCH_THRESHOLD,
            show_select_in_search: true,
            only_one: false,
            clear_menu_on_exit: true,
        }
    }
}

impl MenuOptions {
    /// A configuration is valid when its search threshold lies in `[0, 1)`.
    pub open spec fn wf(&self) -> bool {
        self.min_search_threshold < SCORE_SCALE
    }

    /// The default configuration.
    pub fn new() -> (r: Self)
        ensures
            is_default_options(r),
            r.wf(),
    {
        Self::default()
    }

    /// Sets the glyph drawn in front of the row under the cursor.
    pub fn cursor(self, cursor: &str) -> (r: Self)
        ensures
            r.cursor@ == cursor@,
            r == (MenuOptions { cursor: r.cursor, ..self }),
    {
        MenuOptions { cursor: String::from_str(cursor), ..self }
    }

    /// Sets the width of the cursor column.
    pub fn cursor_width(self, cursor_width: usize) -> (r: Self)
        ensures
            r == (MenuOptions { cursor_width, ..self }),
    {
        MenuOptions { cursor_width, ..self }
    }

    /// Sets the glyph drawn in front of selected rows.
    pub fn selected_indicator(self, indicator: &str) -> (r: Self)
        ensures
            r.selected_indicator@ == indicator@,
            r == (MenuOptions { selected_indicator: r.selected_indicator, ..self }),
    {
        MenuOptions { selected_indicator: String::from_str(indicator), ..self }
    }

    /// Sets the width of the selection column.
    pub fn selected_indicator_width(self, indicator_width: usize) -> (r: Self)
        ensures
            r == (MenuOptions { selected_indicator_width: indicator_width, ..self }),
    {
        MenuOptions { selected_indicator_width: indicator_width, ..self }
    }

    /// Sets the key that toggles the selection of the row under the cursor.
    pub fn select_key(self, key: KeyEvent) -> (r: Self)
        ensures
            r == (MenuOptions { select_key: key, ..self }),
    {
        MenuOptions { select_key: key, ..self }
    }

    /// Sets the most item rows drawn in one frame.
    pub fn max_lines_visible(self, max_lines: usize) -> (r: Self)
        ensures
            r == (MenuOptions { max_lines_visible: max_lines, ..self }),
    {
        MenuOptions { max_lines_visible: max_lines, ..self }
    }

    /// Sets the score, in millionths, that an item must exceed to match a
    /// search. A threshold of one whole or more is refused.
    pub fn minimum_search_threshold(self, threshold: u32) -> (r: Result<Self, ConfigError>)
        ensures
            threshold < SCORE_SCALE ==> r == Ok::<MenuOptions, ConfigError>(
                MenuOptions { min_search_threshold: threshold, ..self },
            ),
            threshold >= SCORE_SCALE ==> r == Err::<MenuOptions, ConfigError>(
                ConfigError::ThresholdOutOfRange,
            ),
    {
        if threshold < SCORE_SCALE {
            Ok(MenuOptions { min_search_threshold: threshold, ..self })
        } else {
            Err(ConfigError::ThresholdOutOfRange)
        }
    }

    /// Sets whether selected items stay visible during searches they do not match.
    pub fn show_selected_in_search(self, show_in_search: bool) -> (r: Self)
        ensures
            r == (MenuOptions { show_select_in_search: show_in_search, ..self }),
    {
        MenuOptions { show_select_in_search: show_in_search, ..self }
    }

    /// Sets whether the menu should end with the first selection.
    pub fn only_one_selection(self, only_one: bool) -> (r: Self)
        ensures
            r == (MenuOptions { only_one, ..self }),
    {
        MenuOptions { only_one, ..self }
    }

    /// Sets whether the menu is erased from the terminal when it closes.
    pub fn clear_on_close(self, do_clear: bool) -> (r: Self)
        ensures
            r == (MenuOptions { clear_menu_on_exit: do_clear, ..self }),
    {
        MenuOptions { clear_menu_on_exit: do_clear, ..self }
    }
}

} // verus!
