use vstd::prelude::*;

use crate::options::{KeyEvent, MenuOptions};
use crate::state::{
    lemma_same_visibility, lemma_visible_len, lemma_visible_step, visible_count, MenuState,
    MenuStateView, TrackedItem,
};
use crate::text::{pop_char, push_char};

verus! {

/// What a key press asks of the caller once the state has taken it in.
#[derive(Clone, Copy, Debug, PartialEq, Eq, Structural)]
pub enum KeyOutcome {
    /// Draw the next frame.
    Redraw,
    /// The search text changed: score it and call `search_from_inputed`, then draw.
    Search,
    /// The user confirmed: the menu is over.
    Confirm,
    /// The key does nothing here.
    Ignore,
}

/// The rows after toggling the selection of the visible item under the cursor.
pub open spec fn toggled_rows(rows: Seq<TrackedItem>, cursor: nat) -> Seq<TrackedItem> {
    Seq::new(
        rows.len(),
        |i: int|
            if rows[i].is_visible && visible_count(rows.take(i)) == cursor {
                TrackedItem { is_selected: !rows[i].is_selected, ..rows[i] }
            } else {
                rows[i]
            },
    )
}

impl MenuStateView {
    /// The selection of the visible item under the cursor is flipped.
    pub open spec fn toggled(self) -> MenuStateView {
        MenuStateView { rows: toggled_rows(self.rows, self.cursor_row), ..self }
    }

    /// A character is appended to the search text.
    pub open spec fn typed(self, c: char) -> MenuStateView {
        MenuStateView { inputed: self.inputed.push(c), ..self }
    }

    /// The last character of the search text is removed, if there is one.
    pub open spec fn erased(self) -> MenuStateView {
        if self.inputed.len() == 0 {
            self
        } else {
            MenuStateView { inputed: self.inputed.drop_last(), ..self }
        }
    }

    /// The cursor moves up one row, stopping at the top.
    pub open spec fn moved_up(self) -> MenuStateView {
        MenuStateView {
            cursor_row: if self.cursor_row == 0 {
                0
            } else {
                (self.cursor_row - 1) as nat
            },
            ..self
        }
    }

    /// Whether the cursor has a row below it: one drawn in the last frame
    /// (which held `lines_written - 1` item rows) and visible now.
    pub open spec fn can_move_down(self) -> bool {
        self.cursor_row + 3 <= self.lines_written && self.cursor_row + 1 < visible_count(
            self.rows,
        )
    }

    /// The cursor moves down one row, stopping at the bottom.
    pub open spec fn moved_down(self) -> MenuStateView {
        if self.can_move_down() {
            MenuStateView { cursor_row: self.cursor_row + 1, ..self }
        } else {
            self
        }
    }

    /// The cursor moves down one row, going back to the top from the bottom.
    pub open spec fn tabbed(self) -> MenuStateView {
        MenuStateView {
            cursor_row: if self.can_move_down() {
                self.cursor_row + 1
            } else {
                0
            },
            ..self
        }
    }

    /// The state after a key press.
    pub open spec fn after_key(self, key: KeyEvent, opts: MenuOptions) -> MenuStateView {
        match key {
            KeyEvent::Char(c) => if KeyEvent::Char(c) == opts.select_key {
                self.toggled()
            } else {
                self.typed(c)
            },
            KeyEvent::Backspace => self.erased(),
            KeyEvent::ArrowUp | KeyEvent::ArrowLeft => self.moved_up(),
            KeyEvent::Tab => self.tabbed(),
            KeyEvent::ArrowDown | KeyEvent::ArrowRight => self.moved_down(),
            KeyEvent::Enter | KeyEvent::Other => self,
        }
    }
}

/// What a key press asks of the caller.
pub open spec fn key_outcome(key: KeyEvent, opts: MenuOptions) -> KeyOutcome {
    match key {
        KeyEvent::Char(c) => if KeyEvent::Char(c) == opts.select_key {
            KeyOutcome::Redraw
        } else {
            KeyOutcome::Search
        },
        KeyEvent::Backspace => KeyOutcome::Search,
        KeyEvent::ArrowUp | KeyEvent::ArrowLeft | KeyEvent::Tab | KeyEvent::ArrowDown
        | KeyEvent::ArrowRight => KeyOutcome::Redraw,
        KeyEvent::Enter => KeyOutcome::Confirm,
        KeyEvent::Other => KeyOutcome::Ignore,
    }
}

impl MenuState {
    /// Flips the selection of the visible item under the cursor; nothing
    /// happens when the cursor is past the last visible item.
    pub fn mark_selected(&mut self)
        requires
            old(self)@.wf(),
        ensures
            final(self)@ == old(self)@.toggled(),
            final(self)@.wf(),
    {
        let ghost old_rows = self.rows@;
        let n = self.rows.len();
        let mut counter: usize = 0;
        for i in 0..n
            invariant
                n == self.rows@.len(),
                old_rows.len() == n,
                forall|j: int| 0 <= j < i ==> self.rows@[j] == toggled_rows(old_rows, self.cursor_row as nat)[j],
                forall|j: int| i <= j < n ==> self.rows@[j] == old_rows[j],
                counter == visible_count(old_rows.take(i as int)),
                self.prompt == old(self).prompt,
                self.inputed == old(self).inputed,
                self.cursor_row == old(self).cursor_row,
                self.lines_written == old(self).lines_written,
        {
            proof {
                lemma_visible_step(old_rows, i as int);
                lemma_visible_len(old_rows.take(i as int));
            }
            if self.rows[i].is_visible {
                if counter == self.cursor_row {
                    self.rows[i].is_selected = !self.rows[i].is_selected;
                }
                counter += 1;
            }
        }
        proof {
            let t = toggled_rows(old_rows, self.cursor_row as nat);
            assert(self.rows@ =~= t);
            lemma_same_visibility(old_rows, t);
        }
    }

    /// Takes in one key press and says what the caller must do next.
    pub fn handle_key(&mut self, key: KeyEvent, opts: &MenuOptions) -> (r: KeyOutcome)
        requires
            old(self)@.wf(),
        ensures
            final(self)@ == old(self)@.after_key(key, *opts),
            r == key_outcome(key, *opts),
            final(self)@.wf(),
    {
        match key {
            KeyEvent::Char(c) => {
                if KeyEvent::Char(c) == opts.select_key {
                    self.mark_selected();
                    KeyOutcome::Redraw
                } else {
                    push_char(&mut self.inputed, c);
                    KeyOutcome::Search
                }
            },
            KeyEvent::Backspace => {
                pop_char(&mut self.inputed);
                KeyOutcome::Search
            },
            KeyEvent::ArrowUp | KeyEvent::ArrowLeft => {
                if self.cursor_row != 0 {
                    self.cursor_row -= 1;
                }
                KeyOutcome::Redraw
            },
            KeyEvent::Tab => {
                if self.cursor_row_can_move_down() {
                    self.cursor_row += 1;
                } else {
                    self.cursor_row = 0;
                }
                KeyOutcome::Redraw
            },
            KeyEvent::ArrowDown | KeyEvent::ArrowRight => {
                if self.cursor_row_can_move_down() {
                    self.cursor_row += 1;
                }
                KeyOutcome::Redraw
            },
            KeyEvent::Enter => KeyOutcome::Confirm,
            KeyEvent::Other => KeyOutcome::Ignore,
        }
    }

    fn cursor_row_can_move_down(&self) -> (r: bool)
        ensures
            r == self@.can_move_down(),
    {
        let count = self.visible_count();
        self.cursor_row < self.lines_written && self.lines_written - self.cursor_row >= 3
            && self.cursor_row < count && count - self.cursor_row >= 2
    }
}

} // verus!
