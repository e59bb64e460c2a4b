use vstd::prelude::*;

use crate::item::MenuItem;

verus! {

/// One item of a running menu, with whether it is shown and whether it is selected.
pub struct TrackedItem {
    pub menu_item: MenuItem,
    pub is_visible: bool,
    pub is_selected: bool,
}

/// The state of one running menu.
pub struct MenuState {
    /// Shown in front of the search text on the last line of each frame.
    pub prompt: String,
    /// What has been typed so far.
    pub inputed: String,
    /// The cursor, as an index among the visible items.
    pub cursor_row: usize,
    /// One entry per item of the menu, in the menu's order.
    pub rows: Vec<TrackedItem>,
    /// How many lines the last frame took on the terminal (0 before the first).
    pub lines_written: usize,
}

/// A `MenuState` as plain values.
pub struct MenuStateView {
    pub prompt: Seq<char>,
    pub inputed: Seq<char>,
    pub cursor_row: nat,
    pub rows: Seq<TrackedItem>,
    pub lines_written: nat,
}

impl View for MenuState {
    type V = MenuStateView;

    open spec fn view(&self) -> MenuStateView {
        MenuStateView {
            prompt: self.prompt@,
            inputed: self.inputed@,
            cursor_row: self.cursor_row as nat,
            rows: self.rows@,
            lines_written: self.lines_written as nat,
        }
    }
}

/// The visible items, in order.
pub open spec fn visible_items(rows: Seq<TrackedItem>) -> Seq<TrackedItem>
    decreases rows.len(),
{
    if rows.len() == 0 {
        Seq::empty()
    } else {
        let earlier = visible_items(rows.drop_last());
        if rows.last().is_visible {
            earlier.push(rows.last())
        } else {
            earlier
        }
    }
}

/// How many items are visible.
pub open spec fn visible_count(rows: Seq<TrackedItem>) -> nat {
    visible_items(rows).len()
}

/// The cursor points at a visible item, or is 0 when none is visible.
pub open spec fn cursor_fits(cursor: nat, rows: Seq<TrackedItem>) -> bool {
    if visible_count(rows) == 0 {
        cursor == 0
    } else {
        cursor < visible_count(rows)
    }
}

impl MenuStateView {
    /// The cursor is in range of the visible items.
    pub open spec fn wf(self) -> bool {
        cursor_fits(self.cursor_row, self.rows)
    }

}

/// The text of strings.
pub open spec fn texts(v: Seq<String>) -> Seq<Seq<char>> {
    Seq::new(v.len(), |k: int| v[k]@)
}

/// The labels of the selected items, in the menu's order.
pub open spec fn selected_labels(rows: Seq<TrackedItem>) -> Seq<Seq<char>>
    decreases rows.len(),
{
    if rows.len() == 0 {
        Seq::empty()
    } else {
        let earlier = selected_labels(rows.drop_last());
        if rows.last().is_selected {
            earlier.push(rows.last().menu_item.visible_name@)
        } else {
            earlier
        }
    }
}

/// Where the cursor starts, before it is brought into range of the visible items.
pub const INITIAL_CURSOR_ROW: usize = 1;

/// The rows of a menu that has just started: each item shown when it is
/// visible at rest, none selected.
pub open spec fn initial_rows(items: Seq<MenuItem>) -> Seq<TrackedItem> {
    Seq::new(
        items.len(),
        |i: int|
            TrackedItem {
                menu_item: items[i],
                is_visible: items[i].visible_at_rest,
                is_selected: false,
            },
    )
}

/// The cursor of a menu that has just started: `INITIAL_CURSOR_ROW`, brought
/// onto the last visible item when there are fewer, or 0 when none is visible.
pub open spec fn initial_cursor(rows: Seq<TrackedItem>) -> nat {
    if visible_count(rows) == 0 {
        0
    } else if INITIAL_CURSOR_ROW < visible_count(rows) {
        INITIAL_CURSOR_ROW as nat
    } else {
        (visible_count(rows) - 1) as nat
    }
}

/// The state of a menu that has just started.
pub open spec fn initial_state(prompt: Seq<char>, items: Seq<MenuItem>) -> MenuStateView {
    MenuStateView {
        prompt,
        inputed: Seq::empty(),
        cursor_row: initial_cursor(initial_rows(items)),
        rows: initial_rows(items),
        lines_written: 0,
    }
}

pub(crate) proof fn lemma_visible_step(rows: Seq<TrackedItem>, i: int)
    requires
        0 <= i < rows.len(),
    ensures
        visible_items(rows.take(i + 1)) == (if rows[i].is_visible {
            visible_items(rows.take(i)).push(rows[i])
        } else {
            visible_items(rows.take(i))
        }),
{
    assert(rows.take(i + 1).drop_last() =~= rows.take(i));
}

pub(crate) proof fn lemma_visible_len(rows: Seq<TrackedItem>)
    ensures
        visible_count(rows) <= rows.len(),
    decreases rows.len(),
{
    if rows.len() > 0 {
        lemma_visible_len(rows.drop_last());
    }
}

pub(crate) proof fn lemma_none_visible(rows: Seq<TrackedItem>)
    requires
        visible_count(rows) == 0,
    ensures
        forall|j: int| 0 <= j < rows.len() ==> !(#[trigger] rows[j]).is_visible,
    decreases rows.len(),
{
    if rows.len() > 0 {
        lemma_none_visible(rows.drop_last());
        assert forall|j: int| 0 <= j < rows.len() implies !(#[trigger] rows[j]).is_visible by {
            if j < rows.len() - 1 {
                assert(rows[j] == rows.drop_last()[j]);
            }
        }
    }
}

/// Rows that agree on which are visible have as many visible.
pub(crate) proof fn lemma_same_visibility(a: Seq<TrackedItem>, b: Seq<TrackedItem>)
    requires
        a.len() == b.len(),
        forall|j: int| 0 <= j < a.len() ==> (#[trigger] a[j]).is_visible == b[j].is_visible,
    ensures
        visible_count(a) == visible_count(b),
    decreases a.len(),
{
    if a.len() > 0 {
        lemma_same_visibility(a.drop_last(), b.drop_last());
    }
}

impl MenuState {
    /// How many items are visible.
    pub fn visible_count(&self) -> (r: usize)
        ensures
            r == visible_count(self.rows@),
    {
        let n = self.rows.len();
        let mut count: usize = 0;
        for i in 0..n
            invariant
                n == self.rows@.len(),
                count == visible_count(self.rows@.take(i as int)),
        {
            proof {
                lemma_visible_step(self.rows@, i as int);
                lemma_visible_len(self.rows@.take(i as int));
            }
            if self.rows[i].is_visible {
                count += 1;
            }
        }
        assert(self.rows@.take(n as int) =~= self.rows@);
        count
    }

    /// The labels of the selected items in the menu's order, or `None` when
    /// nothing is selected.
    pub fn selection(&self) -> (r: Option<Vec<String>>)
        ensures
            r is None <==> selected_labels(self.rows@).len() == 0,
            r matches Some(v) ==> texts(v@) == selected_labels(self.rows@),
    {
        let n = self.rows.len();
        let mut output: Vec<String> = Vec::new();
        for i in 0..n
            invariant
                n == self.rows@.len(),
                texts(output@) == selected_labels(self.rows@.take(i as int)),
        {
            proof {
                assert(self.rows@.take(i + 1).drop_last() =~= self.rows@.take(i as int));
            }
            if self.rows[i].is_selected {
                output.push(self.rows[i].menu_item.visible_name.clone());
            }
            assert(texts(output@) =~= selected_labels(self.rows@.take(i + 1)));
        }
        proof {
            assert(self.rows@.take(n as int) =~= self.rows@);
        }
        if output.len() == 0 {
            None
        } else {
            Some(output)
        }
    }

    /// The state of a menu with this prompt and these items as it starts running.
    pub fn new(prompt: String, menu_items: Vec<MenuItem>) -> (r: MenuState)
        ensures
            r@ == initial_state(prompt@, menu_items@),
            r@.wf(),
    {
        let ghost items = menu_items@;
        let mut menu_items = menu_items;
        let n = menu_items.len();
        let mut rows: Vec<TrackedItem> = Vec::new();
        for i in 0..n
            invariant
                n == menu_items@.len(),
                items.len() == n,
                forall|j: int| i <= j < n ==> menu_items@[j] == items[j],
                rows@ == initial_rows(items).take(i as int),
        {
            let mut menu_item = MenuItem::new(String::new());
            std::mem::swap(&mut menu_item, &mut menu_items[i]);
            let is_visible = menu_item.visible_at_rest;
            rows.push(TrackedItem { menu_item, is_visible, is_selected: false });
            assert(rows@ =~= initial_rows(items).take(i + 1));
        }
        assert(rows@ =~= initial_rows(items));
        let mut state = MenuState { prompt, inputed: String::new(), cursor_row: 0, rows, lines_written: 0 };
        let count = state.visible_count();
        if count > 0 {
            state.cursor_row = if INITIAL_CURSOR_ROW < count {
                INITIAL_CURSOR_ROW
            } else {
                count - 1
            };
        }
        proof {
            assert(state.inputed@ =~= Seq::<char>::empty());
        }
        state
    }
}

} // verus!
