use vstd::prelude::*;

use crate::options::{KeyEvent, MenuOptions};
use crate::filter::{folded_score, is_match, matched_rows, searched_rows, MatchScores};
use crate::keys::toggled_rows;
use crate::state::{
    cursor_fits, lemma_same_visibility, selected_labels, visible_count, MenuStateView, TrackedItem,
};

verus! {

/// One event of a running menu, as far as its state is concerned.
pub enum SessionStep {
    /// A key press taken in by `handle_key`.
    Key(KeyEvent),
    /// The scores of the search text handed to `search_from_inputed`.
    Search(Seq<MatchScores>),
    /// A frame laid out by `redraw`.
    Draw,
}

/// The state after a sequence of events.
pub open spec fn run(s: MenuStateView, opts: MenuOptions, steps: Seq<SessionStep>) -> MenuStateView
    decreases steps.len(),
{
    if steps.len() == 0 {
        s
    } else {
        let before = run(s, opts, steps.drop_last());
        match steps.last() {
            SessionStep::Key(key) => before.after_key(key, opts),
            SessionStep::Search(scores) => before.searched(opts, scores),
            SessionStep::Draw => before.drawn(opts),
        }
    }
}

proof fn lemma_all_hidden(rows: Seq<TrackedItem>)
    requires
        forall|j: int| 0 <= j < rows.len() ==> !(#[trigger] rows[j]).is_visible,
    ensures
        visible_count(rows) == 0,
    decreases rows.len(),
{
    if rows.len() > 0 {
        lemma_all_hidden(rows.drop_last());
    }
}

proof fn lemma_same_selection(a: Seq<TrackedItem>, b: Seq<TrackedItem>)
    requires
        a.len() == b.len(),
        forall|j: int|
            0 <= j < a.len() ==> (#[trigger] a[j]).is_selected == b[j].is_selected
                && a[j].menu_item == b[j].menu_item,
    ensures
        selected_labels(a) == selected_labels(b),
    decreases a.len(),
{
    if a.len() > 0 {
        lemma_same_selection(a.drop_last(), b.drop_last());
    }
}

/// A search leaves every item's selection, and the item itself, as they were.
pub proof fn lemma_search_keeps_selection(s: MenuStateView, opts: MenuOptions, scores: Seq<MatchScores>)
    ensures
        s.searched(opts, scores).rows.len() == s.rows.len(),
        forall|i: int|
            0 <= i < s.rows.len() ==> (#[trigger] s.searched(opts, scores).rows[i]).is_selected
                == s.rows[i].is_selected && s.searched(opts, scores).rows[i].menu_item
                == s.rows[i].menu_item,
{
}

/// After a search, whether an item is shown depends only on the items, their
/// selection, the scores and the configuration: never on what was shown before.
pub proof fn lemma_search_ignores_old_visibility(
    a: MenuStateView,
    b: MenuStateView,
    opts: MenuOptions,
    scores: Seq<MatchScores>,
)
    requires
        a.rows.len() == b.rows.len(),
        forall|i: int|
            0 <= i < a.rows.len() ==> (#[trigger] a.rows[i]).menu_item == b.rows[i].menu_item
                && a.rows[i].is_selected == b.rows[i].is_selected,
    ensures
        forall|i: int|
            0 <= i < a.rows.len() ==> (#[trigger] a.searched(opts, scores).rows[i]).is_visible
                == b.searched(opts, scores).rows[i].is_visible,
{
    let ma = matched_rows(a.rows, scores, opts);
    let mb = matched_rows(b.rows, scores, opts);
    assert forall|j: int| 0 <= j < ma.len() implies (#[trigger] ma[j]).is_visible
        == mb[j].is_visible by {
        assert(is_match(a.rows[j], scores[j], opts) == is_match(b.rows[j], scores[j], opts));
    }
    lemma_same_visibility(ma, mb);
}

/// When no item matches the search and none is kept by its selection, exactly
/// the items visible at rest are shown and the cursor goes to the top.
pub proof fn lemma_rest_fallback(s: MenuStateView, opts: MenuOptions, scores: Seq<MatchScores>)
    requires
        forall|i: int|
            0 <= i < s.rows.len() ==> !((#[trigger] s.rows[i]).is_selected
                && opts.show_select_in_search) && folded_score(
                scores[i].label as int,
                scores[i].alternatives@,
            ) <= opts.min_search_threshold,
    ensures
        forall|i: int|
            0 <= i < s.rows.len() ==> (#[trigger] s.searched(opts, scores).rows[i]).is_visible
                == s.rows[i].menu_item.visible_at_rest,
        s.searched(opts, scores).cursor_row == 0,
{
    let m = matched_rows(s.rows, scores, opts);
    assert forall|j: int| 0 <= j < m.len() implies !(#[trigger] m[j]).is_visible by {
        assert(!is_match(s.rows[j], scores[j], opts));
    }
    lemma_all_hidden(m);
}

/// A search leaves the cursor on a visible item, or at 0 when none is visible.
pub proof fn lemma_search_keeps_cursor_in_range(
    s: MenuStateView,
    opts: MenuOptions,
    scores: Seq<MatchScores>,
)
    ensures
        s.searched(opts, scores).wf(),
{
    assert(searched_rows(s.rows, scores, opts).len() == s.rows.len());
}

/// A key press leaves the cursor on a visible item, or at 0 when none is visible.
pub proof fn lemma_key_keeps_cursor_in_range(s: MenuStateView, key: KeyEvent, opts: MenuOptions)
    requires
        s.wf(),
    ensures
        s.after_key(key, opts).wf(),
        s.after_key(key, opts).rows.len() == s.rows.len(),
{
    let t = toggled_rows(s.rows, s.cursor_row);
    lemma_same_visibility(s.rows, t);
}

/// Whatever sequence of key presses, searches and frames a menu goes through,
/// its cursor stays on a visible item, or at 0 when none is visible, and no
/// item is added or removed.
pub proof fn lemma_cursor_stays_in_range(
    s: MenuStateView,
    opts: MenuOptions,
    steps: Seq<SessionStep>,
)
    requires
        s.wf(),
    ensures
        run(s, opts, steps).wf(),
        run(s, opts, steps).rows.len() == s.rows.len(),
        cursor_fits(run(s, opts, steps).cursor_row, run(s, opts, steps).rows),
    decreases steps.len(),
{
    if steps.len() > 0 {
        lemma_cursor_stays_in_range(s, opts, steps.drop_last());
        let before = run(s, opts, steps.drop_last());
        match steps.last() {
            SessionStep::Key(key) => lemma_key_keeps_cursor_in_range(before, key, opts),
            SessionStep::Search(scores) => lemma_search_keeps_cursor_in_range(before, opts, scores),
            SessionStep::Draw => {},
        }
    }
}

/// Selecting the item under the cursor, typing a character that hides it,
/// then erasing that character, leaves every selection as the toggle left it:
/// the selected labels reported at the end are those right after the toggle.
pub proof fn lemma_selection_survives_search(
    s: MenuStateView,
    opts: MenuOptions,
    c: char,
    hiding: Seq<MatchScores>,
    clearing: Seq<MatchScores>,
)
    requires
        KeyEvent::Char(c) != opts.select_key,
    ensures
        ({
            let s1 = s.toggled();
            let s2 = s1.after_key(KeyEvent::Char(c), opts).searched(opts, hiding);
            let s3 = s2.after_key(KeyEvent::Backspace, opts).searched(opts, clearing);
            &&& s3.inputed == s.inputed
            &&& s3.rows.len() == s.rows.len()
            &&& forall|i: int|
                0 <= i < s.rows.len() ==> (#[trigger] s3.rows[i]).is_selected
                    == s1.rows[i].is_selected
            &&& selected_labels(s3.rows) == selected_labels(s1.rows)
        }),
{
    let s1 = s.toggled();
    let t1 = s1.after_key(KeyEvent::Char(c), opts);
    let s2 = t1.searched(opts, hiding);
    let t2 = s2.after_key(KeyEvent::Backspace, opts);
    let s3 = t2.searched(opts, clearing);
    lemma_search_keeps_selection(t1, opts, hiding);
    lemma_search_keeps_selection(t2, opts, clearing);
    assert(t2.inputed =~= s.inputed);
    lemma_same_selection(s3.rows, s1.rows);
}

} // verus!
