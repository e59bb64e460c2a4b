use vstd::prelude::*;
use vstd::string::*;

use crate::options::MenuOptions;
use crate::state::{
    lemma_visible_len, lemma_visible_step, texts, visible_count, visible_items, MenuState,
    MenuStateView, TrackedItem,
};

verus! {

/// One frame to put on the terminal.
pub struct Frame {
    /// How many lines of the previous frame to erase first.
    pub clear: usize,
    /// The lines of the frame, top to bottom.
    pub lines: Vec<String>,
}

/// The line drawn for a visible item at row `k` of the frame: the cursor
/// glyph or a space, the selection glyph and a space or two spaces, the label.
pub open spec fn row_text(opts: MenuOptions, cursor: nat, k: nat, row: TrackedItem) -> Seq<char> {
    (if cursor == k {
        opts.cursor@
    } else {
        seq![' ']
    }) + (if row.is_selected {
        opts.selected_indicator@.push(' ')
    } else {
        seq![' ', ' ']
    }) + row.menu_item.visible_name@
}

/// How many item rows a frame holds: the visible items, up to the cap.
pub open spec fn drawn_count(rows: Seq<TrackedItem>, opts: MenuOptions) -> nat {
    if visible_count(rows) < opts.max_lines_visible {
        visible_count(rows)
    } else {
        opts.max_lines_visible as nat
    }
}

impl MenuStateView {
    /// The lines of the next frame: one per drawn item, then the prompt
    /// followed by the search text.
    pub open spec fn frame_lines(self, opts: MenuOptions) -> Seq<Seq<char>> {
        Seq::new(
            drawn_count(self.rows, opts),
            |k: int| row_text(opts, self.cursor_row, k as nat, visible_items(self.rows)[k]),
        ).push(self.prompt + self.inputed)
    }

    /// The state once the next frame is drawn.
    pub open spec fn drawn(self, opts: MenuOptions) -> MenuStateView {
        MenuStateView { lines_written: self.frame_lines(opts).len(), ..self }
    }
}

impl MenuState {
    /// The line for a visible item drawn at row `cur_redraw_row` of the frame.
    fn get_row(&self, item: &TrackedItem, cur_redraw_row: usize, opts: &MenuOptions) -> (r: String)
        ensures
            r@ == row_text(*opts, self.cursor_row as nat, cur_redraw_row as nat, *item),
    {
        let mut line = if self.cursor_row == cur_redraw_row {
            opts.cursor.clone()
        } else {
            String::from_str(" ")
        };
        if item.is_selected {
            line.append(opts.selected_indicator.as_str());
            line.append(" ");
        } else {
            line.append("  ");
        }
        line.append(item.menu_item.visible_name.as_str());
        proof {
            reveal_strlit(" ");
            reveal_strlit("  ");
            assert(" "@ =~= seq![' ']);
            assert("  "@ =~= seq![' ', ' ']);
            assert(opts.selected_indicator@ + " "@ =~= opts.selected_indicator@.push(' '));
        }
        line
    }

    /// Lays out the next frame and records how many lines it takes. The
    /// caller erases `clear` lines, then writes the frame's lines joined by
    /// line breaks.
    pub fn redraw(&mut self, opts: &MenuOptions) -> (f: Frame)
        requires
            old(self)@.wf(),
        ensures
            final(self)@ == old(self)@.drawn(*opts),
            f.clear == old(self).lines_written,
            texts(f.lines@) == old(self)@.frame_lines(*opts),
            f.lines@.len() == final(self).lines_written,
            f.lines@.len() == drawn_count(old(self).rows@, *opts) + 1,
            drawn_count(old(self).rows@, *opts) <= opts.max_lines_visible,
            final(self)@.wf(),
    {
        let ghost vis = visible_items(self.rows@);
        let n = self.rows.len();
        let mut lines: Vec<String> = Vec::new();
        let mut drawn: usize = 0;
        for i in 0..n
            invariant
                n == self.rows@.len(),
                vis == visible_items(self.rows@),
                drawn == lines@.len(),
                drawn == (if visible_count(self.rows@.take(i as int)) < opts.max_lines_visible {
                    visible_count(self.rows@.take(i as int))
                } else {
                    opts.max_lines_visible as nat
                }),
                forall|k: int|
                    0 <= k < drawn ==> (#[trigger] lines@[k])@ == row_text(
                        *opts,
                        self.cursor_row as nat,
                        k as nat,
                        visible_items(self.rows@.take(i as int))[k],
                    ),
        {
            proof {
                lemma_visible_step(self.rows@, i as int);
                lemma_visible_len(self.rows@.take(i as int));
            }
            if drawn < opts.max_lines_visible && self.rows[i].is_visible {
                let line = self.get_row(&self.rows[i], drawn, opts);
                lines.push(line);
                drawn += 1;
            }
        }
        proof {
            assert(self.rows@.take(n as int) =~= self.rows@);
        }
        let mut last = self.prompt.clone();
        last.append(self.inputed.as_str());
        lines.push(last);
        proof {
            assert(texts(lines@) =~= self@.frame_lines(*opts));
        }
        let clear = self.lines_written;
        self.lines_written = lines.len();
        Frame { clear, lines }
    }
}

} // verus!
