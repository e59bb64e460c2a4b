use vstd::prelude::*;

use crate::options::MenuOptions;
use crate::state::{
    lemma_none_visible, lemma_visible_len, lemma_visible_step, visible_count, MenuState,
    MenuStateView, TrackedItem,
};

verus! {

/// How similar one item is to the search text: the similarity of its label,
/// then that of each alternative match in order, each in millionths.
pub struct MatchScores {
    pub label: u32,
    pub alternatives: Vec<u32>,
}

/// The score of an item: the label's similarity, then for each alternative in
/// order the average of the score so far and that alternative's similarity
/// (rounded down), so that later alternatives weigh less.
pub open spec fn folded_score(label: int, alternatives: Seq<u32>) -> int
    decreases alternatives.len(),
{
    if alternatives.len() == 0 {
        label
    } else {
        (folded_score(label, alternatives.drop_last()) + alternatives.last()) / 2
    }
}

/// Whether an item counts as a match of the current search.
pub open spec fn is_match(row: TrackedItem, scores: MatchScores, opts: MenuOptions) -> bool {
    (row.is_selected && opts.show_select_in_search) || folded_score(
        scores.label as int,
        scores.alternatives@,
    ) > opts.min_search_threshold
}

/// Every item shown exactly when it matches.
pub open spec fn matched_rows(
    rows: Seq<TrackedItem>,
    scores: Seq<MatchScores>,
    opts: MenuOptions,
) -> Seq<TrackedItem> {
    Seq::new(
        rows.len(),
        |i: int| TrackedItem { is_visible: is_match(rows[i], scores[i], opts), ..rows[i] },
    )
}

/// Every item shown exactly when it is visible at rest.
pub open spec fn rest_rows(rows: Seq<TrackedItem>) -> Seq<TrackedItem> {
    Seq::new(
        rows.len(),
        |i: int| TrackedItem { is_visible: rows[i].menu_item.visible_at_rest, ..rows[i] },
    )
}

/// How many items match the current search.
pub open spec fn match_count(
    rows: Seq<TrackedItem>,
    scores: Seq<MatchScores>,
    opts: MenuOptions,
) -> nat {
    visible_count(matched_rows(rows, scores, opts))
}

/// The items after a search: the matches, or the rest view when nothing matches.
pub open spec fn searched_rows(
    rows: Seq<TrackedItem>,
    scores: Seq<MatchScores>,
    opts: MenuOptions,
) -> Seq<TrackedItem> {
    if match_count(rows, scores, opts) > 0 {
        matched_rows(rows, scores, opts)
    } else {
        rest_rows(rows)
    }
}

/// The cursor after a search: moved to keep its relative height in the list
/// (the old frame showed `lines_written - 3` rows below the first), and
/// brought back onto the last match when that overshoots.
pub open spec fn rescaled_cursor(cursor: nat, lines_written: nat, matches: nat) -> nat {
    if matches <= 1 || lines_written <= 3 {
        0
    } else {
        let moved = (cursor / (lines_written - 3) as nat) * matches;
        if moved < matches - 1 {
            moved
        } else {
            (matches - 1) as nat
        }
    }
}

impl MenuStateView {
    /// The state after the search text was scored.
    pub open spec fn searched(self, opts: MenuOptions, scores: Seq<MatchScores>) -> MenuStateView {
        MenuStateView {
            rows: searched_rows(self.rows, scores, opts),
            cursor_row: rescaled_cursor(
                self.cursor_row,
                self.lines_written,
                match_count(self.rows, scores, opts),
            ),
            ..self
        }
    }
}

impl MatchScores {
    /// The item's score: see `folded_score`.
    pub fn score(&self) -> (r: u32)
        ensures
            r == folded_score(self.label as int, self.alternatives@),
    {
        let mut score: u32 = self.label;
        let mut k: usize = 0;
        while k < self.alternatives.len()
            invariant
                k <= self.alternatives@.len(),
                score == folded_score(self.label as int, self.alternatives@.take(k as int)),
            decreases self.alternatives@.len() - k,
        {
            assert(self.alternatives@.take(k + 1).drop_last() =~= self.alternatives@.take(k as int));
            score = ((score as u64 + self.alternatives[k] as u64) / 2) as u32;
            k += 1;
        }
        assert(self.alternatives@.take(k as int) =~= self.alternatives@);
        score
    }
}

impl MenuState {
    /// Recomputes which items are shown from the scores of the current search
    /// text (one entry per item, in order), and moves the cursor to match.
    pub fn search_from_inputed(&mut self, opts: &MenuOptions, scores: &Vec<MatchScores>)
        requires
            old(self)@.wf(),
            scores@.len() == old(self).rows@.len(),
        ensures
            final(self)@ == old(self)@.searched(*opts, scores@),
            final(self)@.wf(),
    {
        let ghost old_rows = self.rows@;
        let ghost matched = matched_rows(old_rows, scores@, *opts);
        let n = self.rows.len();
        let mut num_results: usize = 0;
        for i in 0..n
            invariant
                n == self.rows@.len(),
                old_rows.len() == n,
                scores@.len() == n,
                matched == matched_rows(old_rows, scores@, *opts),
                forall|j: int| 0 <= j < i ==> self.rows@[j] == matched[j],
                forall|j: int| i <= j < n ==> self.rows@[j] == old_rows[j],
                num_results == visible_count(matched.take(i as int)),
                self.prompt == old(self).prompt,
                self.inputed == old(self).inputed,
                self.cursor_row == old(self).cursor_row,
                self.lines_written == old(self).lines_written,
        {
            proof {
                lemma_visible_step(matched, i as int);
                lemma_visible_len(matched.take(i as int));
            }
            let found = if self.rows[i].is_selected && opts.show_select_in_search {
                true
            } else {
                scores[i].score() > opts.min_search_threshold
            };
            self.rows[i].is_visible = found;
            if found {
                num_results += 1;
            }
        }
        proof {
            assert(self.rows@ =~= matched);
            assert(matched.take(n as int) =~= matched);
            assert(num_results == match_count(old_rows, scores@, *opts));
        }
        if num_results == 0 {
            proof {
                lemma_none_visible(matched);
            }
            for i in 0..n
                invariant
                    n == self.rows@.len(),
                    old_rows.len() == n,
                    matched.len() == n,
                    forall|j: int| 0 <= j < n ==> !(#[trigger] matched[j]).is_visible,
                    forall|j: int| 0 <= j < i ==> self.rows@[j] == rest_rows(old_rows)[j],
                    forall|j: int| i <= j < n ==> self.rows@[j] == matched[j],
                    matched == matched_rows(old_rows, scores@, *opts),
                    self.prompt == old(self).prompt,
                    self.inputed == old(self).inputed,
                    self.cursor_row == old(self).cursor_row,
                    self.lines_written == old(self).lines_written,
            {
                proof {
                    assert(matched[i as int] == matched_rows(old_rows, scores@, *opts)[i as int]);
                }
                if self.rows[i].menu_item.visible_at_rest {
                    self.rows[i].is_visible = true;
                }
            }
            proof {
                assert(self.rows@ =~= rest_rows(old_rows));
            }
            self.cursor_row = 0;
        } else if self.lines_written <= 3 || num_results == 1 {
            self.cursor_row = 0;
        } else {
            // The moved row `q * num_results` is 0 when `q` is, and past the
            // last match otherwise; so the product is never computed.
            let q = self.cursor_row / (self.lines_written - 3);
            let ghost moved = (q as nat) * (num_results as nat);
            if q == 0 {
                assert(moved == 0) by (nonlinear_arith)
                    requires
                        moved == (q as nat) * (num_results as nat),
                        q == 0,
                ;
                self.cursor_row = 0;
            } else {
                assert(moved >= num_results) by (nonlinear_arith)
                    requires
                        moved == (q as nat) * (num_results as nat),
                        q >= 1,
                ;
                self.cursor_row = num_results - 1;
            }
        }
    }
}

} // verus!
