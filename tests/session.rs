use cartographer::{
    KeyEvent, KeyOutcome, MatchScores, MenuItem, MenuOptions, MenuState, INITIAL_CURSOR_ROW,
    SCORE_SCALE,
};
use rust_fuzzy_search::fuzzy_compare;

fn items(labels: &[&str]) -> Vec<MenuItem> {
    labels.iter().map(|l| MenuItem::new(l.to_string())).collect()
}

fn start(labels: &[&str]) -> MenuState {
    MenuState::new("Pick: ".to_string(), items(labels))
}

fn visible(state: &MenuState) -> Vec<bool> {
    state.rows.iter().map(|r| r.is_visible).collect()
}

fn flat(label: u32) -> MatchScores {
    MatchScores { label, alternatives: Vec::new() }
}

fn similarity(a: &str, b: &str) -> u32 {
    let scaled = (fuzzy_compare(a, b) as f64 * SCORE_SCALE as f64).floor();
    if scaled.is_nan() || scaled <= 0.0 {
        0
    } else if scaled >= SCORE_SCALE as f64 {
        SCORE_SCALE
    } else {
        scaled as u32
    }
}

fn fuzzy_scores(state: &MenuState) -> Vec<MatchScores> {
    state
        .rows
        .iter()
        .map(|row| MatchScores {
            label: similarity(&row.menu_item.visible_name, &state.inputed),
            alternatives: row
                .menu_item
                .alternative_matches
                .iter()
                .flatten()
                .map(|alt| similarity(alt, &state.inputed))
                .collect(),
        })
        .collect()
}

fn press(state: &mut MenuState, key: KeyEvent, opts: &MenuOptions) -> KeyOutcome {
    let outcome = state.handle_key(key, opts);
    if outcome == KeyOutcome::Search {
        let scores = fuzzy_scores(state);
        state.search_from_inputed(opts, &scores);
    }
    state.redraw(opts);
    outcome
}

#[test]
fn score_without_alternatives_is_the_label() {
    assert_eq!(flat(4_321).score(), 4_321);
}

#[test]
fn score_folds_alternatives_in_order() {
    let s = MatchScores { label: 100, alternatives: vec![300] };
    assert_eq!(s.score(), 200);
    let s = MatchScores { label: 100, alternatives: vec![300, 50] };
    assert_eq!(s.score(), 125);
    let s = MatchScores { label: 100, alternatives: vec![50, 300] };
    assert_eq!(s.score(), 187);
}

#[test]
fn score_does_not_overflow() {
    let s = MatchScores { label: u32::MAX, alternatives: vec![u32::MAX, u32::MAX] };
    assert_eq!(s.score(), u32::MAX);
}

#[test]
fn start_shows_all_items_at_rest() {
    let state = start(&["a", "b", "c", "d"]);
    assert_eq!(visible(&state), vec![true, true, true, true]);
    assert_eq!(state.cursor_row, INITIAL_CURSOR_ROW);
    assert_eq!(state.cursor_row, 1);
    assert_eq!(state.lines_written, 0);
    assert_eq!(state.inputed, "");
    assert!(state.rows.iter().all(|r| !r.is_selected));
}

#[test]
fn start_clamps_cursor_to_single_item() {
    let state = start(&["only"]);
    assert_eq!(state.cursor_row, 0);
}

#[test]
fn start_with_nothing_visible_puts_cursor_at_zero() {
    let state = MenuState::new(
        "Pick: ".to_string(),
        vec![MenuItem::new("hidden".to_string()).visible_at_rest(false)],
    );
    assert_eq!(visible(&state), vec![false]);
    assert_eq!(state.cursor_row, 0);
    assert_eq!(state.visible_count(), 0);
}

#[test]
fn typing_apple_prefix_leaves_only_apple() {
    let opts = MenuOptions::new();
    let mut state = start(&["apple", "banana", "cherry"]);
    state.redraw(&opts);
    assert_eq!(press(&mut state, KeyEvent::Char('a'), &opts), KeyOutcome::Search);
    assert_eq!(press(&mut state, KeyEvent::Char('p'), &opts), KeyOutcome::Search);
    assert_eq!(state.inputed, "ap");
    assert_eq!(visible(&state), vec![true, false, false]);
    assert_eq!(state.cursor_row, 0);
}

#[test]
fn select_two_then_confirm_keeps_list_order() {
    let opts = MenuOptions::new();
    let mut state = start(&["a", "b", "c", "d"]);
    state.redraw(&opts);
    assert_eq!(press(&mut state, KeyEvent::Char(' '), &opts), KeyOutcome::Redraw);
    assert_eq!(press(&mut state, KeyEvent::ArrowUp, &opts), KeyOutcome::Redraw);
    assert_eq!(press(&mut state, KeyEvent::Char(' '), &opts), KeyOutcome::Redraw);
    assert_eq!(state.handle_key(KeyEvent::Enter, &opts), KeyOutcome::Confirm);
    assert_eq!(state.selection(), Some(vec!["a".to_string(), "b".to_string()]));
}

#[test]
fn confirm_without_selection_is_none() {
    let opts = MenuOptions::new();
    let mut state = start(&["a", "b"]);
    state.redraw(&opts);
    assert_eq!(state.handle_key(KeyEvent::Enter, &opts), KeyOutcome::Confirm);
    assert_eq!(state.selection(), None);
}

#[test]
fn selection_survives_a_search_that_hides_it() {
    let opts = MenuOptions::new().show_selected_in_search(false);
    let mut state = start(&["apple", "banana", "cherry"]);
    state.redraw(&opts);
    press(&mut state, KeyEvent::Char(' '), &opts);
    assert!(state.rows[1].is_selected);
    press(&mut state, KeyEvent::Char('a'), &opts);
    press(&mut state, KeyEvent::Char('p'), &opts);
    assert!(!state.rows[1].is_visible);
    assert!(state.rows[1].is_selected);
    press(&mut state, KeyEvent::Backspace, &opts);
    press(&mut state, KeyEvent::Backspace, &opts);
    assert_eq!(state.inputed, "");
    assert!(state.rows[1].is_selected);
    assert_eq!(state.selection(), Some(vec!["banana".to_string()]));
}

#[test]
fn selected_item_stays_visible_in_search() {
    let opts = MenuOptions::new();
    let mut state = start(&["apple", "banana", "cherry"]);
    state.redraw(&opts);
    press(&mut state, KeyEvent::Char(' '), &opts);
    press(&mut state, KeyEvent::Char('a'), &opts);
    press(&mut state, KeyEvent::Char('p'), &opts);
    assert_eq!(visible(&state), vec![true, true, false]);
}

#[test]
fn no_match_falls_back_to_rest_view() {
    let opts = MenuOptions::new();
    let mut state = MenuState::new(
        "Pick: ".to_string(),
        vec![
            MenuItem::new("a".to_string()),
            MenuItem::new("b".to_string()).visible_at_rest(false),
            MenuItem::new("c".to_string()),
        ],
    );
    state.redraw(&opts);
    state.search_from_inputed(&opts, &vec![flat(0), flat(5_000), flat(0)]);
    assert_eq!(visible(&state), vec![true, false, true]);
    assert_eq!(state.cursor_row, 0);
}

#[test]
fn search_replaces_previous_visibility() {
    let opts = MenuOptions::new();
    let mut state = start(&["a", "b", "c"]);
    state.redraw(&opts);
    state.search_from_inputed(&opts, &vec![flat(0), flat(9_000), flat(0)]);
    assert_eq!(visible(&state), vec![false, true, false]);
    state.search_from_inputed(&opts, &vec![flat(9_000), flat(0), flat(9_000)]);
    assert_eq!(visible(&state), vec![true, false, true]);
}

#[test]
fn threshold_is_strict() {
    let opts = MenuOptions::new();
    let mut state = start(&["a", "b"]);
    state.search_from_inputed(&opts, &vec![flat(5_000), flat(5_001)]);
    assert_eq!(visible(&state), vec![false, true]);
}

#[test]
fn alternatives_take_part_in_matching() {
    let opts = MenuOptions::new();
    let mut state = start(&["a", "b"]);
    let scores = vec![
        MatchScores { label: 0, alternatives: vec![10_002] },
        MatchScores { label: 0, alternatives: vec![10_000] },
    ];
    state.search_from_inputed(&opts, &scores);
    assert_eq!(visible(&state), vec![true, false]);
}

#[test]
fn cursor_keeps_relative_height_after_search() {
    let opts = MenuOptions::new();
    let mut state = start(&["a", "b", "c", "d", "e", "f"]);
    state.redraw(&opts);
    assert_eq!(state.lines_written, 7);
    for _ in 0..3 {
        state.handle_key(KeyEvent::ArrowDown, &opts);
    }
    assert_eq!(state.cursor_row, 4);
    let hits = vec![flat(9_000), flat(9_000), flat(9_000), flat(0), flat(0), flat(0)];
    state.search_from_inputed(&opts, &hits);
    assert_eq!(state.cursor_row, 2);
}

#[test]
fn cursor_near_top_goes_to_top_after_search() {
    let opts = MenuOptions::new();
    let mut state = start(&["a", "b", "c", "d", "e", "f"]);
    state.redraw(&opts);
    state.handle_key(KeyEvent::ArrowDown, &opts);
    state.handle_key(KeyEvent::ArrowDown, &opts);
    assert_eq!(state.cursor_row, 3);
    let hits = vec![flat(9_000), flat(9_000), flat(9_000), flat(0), flat(0), flat(0)];
    state.search_from_inputed(&opts, &hits);
    assert_eq!(state.cursor_row, 0);
}

#[test]
fn search_before_first_frame_puts_cursor_at_top() {
    let opts = MenuOptions::new();
    let mut state = start(&["a", "b", "c"]);
    state.search_from_inputed(&opts, &vec![flat(9_000), flat(9_000), flat(9_000)]);
    assert_eq!(state.cursor_row, 0);
}

#[test]
fn down_stops_at_last_drawn_row() {
    let opts = MenuOptions::new();
    let mut state = start(&["a", "b", "c", "d"]);
    state.redraw(&opts);
    for expected in [2usize, 3, 3, 3] {
        state.handle_key(KeyEvent::ArrowRight, &opts);
        assert_eq!(state.cursor_row, expected);
    }
}

#[test]
fn up_stops_at_top() {
    let opts = MenuOptions::new();
    let mut state = start(&["a", "b", "c"]);
    state.redraw(&opts);
    assert_eq!(state.handle_key(KeyEvent::ArrowLeft, &opts), KeyOutcome::Redraw);
    assert_eq!(state.cursor_row, 0);
    state.handle_key(KeyEvent::ArrowUp, &opts);
    assert_eq!(state.cursor_row, 0);
}

#[test]
fn tab_wraps_to_top() {
    let opts = MenuOptions::new();
    let mut state = start(&["a", "b", "c"]);
    state.redraw(&opts);
    state.handle_key(KeyEvent::Tab, &opts);
    assert_eq!(state.cursor_row, 2);
    state.handle_key(KeyEvent::Tab, &opts);
    assert_eq!(state.cursor_row, 0);
}

#[test]
fn down_is_bounded_by_the_row_cap() {
    let opts = MenuOptions::new().max_lines_visible(2);
    let mut state = start(&["a", "b", "c", "d"]);
    state.redraw(&opts);
    assert_eq!(state.lines_written, 3);
    state.handle_key(KeyEvent::ArrowDown, &opts);
    assert_eq!(state.cursor_row, 1);
    state.handle_key(KeyEvent::Tab, &opts);
    assert_eq!(state.cursor_row, 0);
}

#[test]
fn typing_and_erasing_edit_the_search_text() {
    let opts = MenuOptions::new();
    let mut state = start(&["a"]);
    assert_eq!(state.handle_key(KeyEvent::Char('x'), &opts), KeyOutcome::Search);
    assert_eq!(state.handle_key(KeyEvent::Char('é'), &opts), KeyOutcome::Search);
    assert_eq!(state.inputed, "xé");
    assert_eq!(state.handle_key(KeyEvent::Backspace, &opts), KeyOutcome::Search);
    assert_eq!(state.inputed, "x");
    state.handle_key(KeyEvent::Backspace, &opts);
    assert_eq!(state.inputed, "");
    assert_eq!(state.handle_key(KeyEvent::Backspace, &opts), KeyOutcome::Search);
    assert_eq!(state.inputed, "");
}

#[test]
fn other_keys_change_nothing() {
    let opts = MenuOptions::new();
    let mut state = start(&["a", "b"]);
    state.redraw(&opts);
    assert_eq!(state.handle_key(KeyEvent::Other, &opts), KeyOutcome::Ignore);
    assert_eq!(state.cursor_row, 1);
    assert_eq!(state.inputed, "");
    assert_eq!(visible(&state), vec![true, true]);
}

#[test]
fn select_key_may_be_another_char() {
    let opts = MenuOptions::new().select_key(KeyEvent::Char('+'));
    let mut state = start(&["a", "b"]);
    assert_eq!(state.handle_key(KeyEvent::Char(' '), &opts), KeyOutcome::Search);
    assert_eq!(state.inputed, " ");
    assert_eq!(state.handle_key(KeyEvent::Char('+'), &opts), KeyOutcome::Redraw);
    assert!(state.rows[1].is_selected);
}

#[test]
fn toggle_counts_visible_items_only() {
    let opts = MenuOptions::new();
    let mut state = start(&["a", "b", "c"]);
    state.search_from_inputed(&opts, &vec![flat(0), flat(9_000), flat(9_000)]);
    state.cursor_row = 1;
    state.mark_selected();
    assert_eq!(
        state.rows.iter().map(|r| r.is_selected).collect::<Vec<_>>(),
        vec![false, false, true]
    );
    state.mark_selected();
    assert!(!state.rows[2].is_selected);
}

#[test]
fn frame_lines_are_laid_out() {
    let opts = MenuOptions::new();
    let mut state = start(&["apple", "banana", "cherry"]);
    let frame = state.redraw(&opts);
    assert_eq!(frame.clear, 0);
    assert_eq!(frame.lines, vec!["   apple", ">  banana", "   cherry", "Pick: "]);
    state.handle_key(KeyEvent::Char(' '), &opts);
    state.handle_key(KeyEvent::Char('z'), &opts);
    let frame = state.redraw(&opts);
    assert_eq!(frame.clear, 4);
    assert_eq!(frame.lines, vec!["   apple", ">X banana", "   cherry", "Pick: z"]);
}

#[test]
fn frame_respects_row_cap() {
    let opts = MenuOptions::new().max_lines_visible(3).cursor("→").selected_indicator("*");
    let mut state = start(&["a", "b", "c", "d", "e"]);
    let frame = state.redraw(&opts);
    assert_eq!(frame.lines.len(), 4);
    assert_eq!(state.lines_written, 4);
    assert_eq!(frame.lines, vec!["   a", "→  b", "   c", "Pick: "]);
    state.handle_key(KeyEvent::Char(' '), &opts);
    let frame = state.redraw(&opts);
    assert_eq!(frame.clear, 4);
    assert_eq!(frame.lines[1], "→* b");
}

#[test]
fn frame_with_nothing_visible_is_the_prompt() {
    let opts = MenuOptions::new();
    let mut state = MenuState::new(
        "Pick: ".to_string(),
        vec![MenuItem::new("hidden".to_string()).visible_at_rest(false)],
    );
    let frame = state.redraw(&opts);
    assert_eq!(frame.lines, vec!["Pick: "]);
    assert_eq!(state.lines_written, 1);
}
