use vstd::prelude::*;

verus! {

/// One line of a menu: its label and how it takes part in searches.
#[derive(Clone, Debug, PartialEq, Eq, PartialOrd, Ord, Hash)]
pub struct MenuItem {
    /// The text shown for this item.
    pub visible_name: String,
    /// Whether the item is shown while no search matches anything.
    pub visible_at_rest: bool,
    /// Where the item should stand among the items shown at rest; advisory only.
    pub at_rest_position: Option<usize>,
    /// Further strings scored against the search text besides the label.
    pub alternative_matches: Option<Vec<String>>,
}

/// The alternative matches of an item as plain sequences (empty when there are none).
pub open spec fn alternatives_of(item: MenuItem) -> Seq<String> {
    match item.alternative_matches {
        Some(v) => v@,
        None => Seq::empty(),
    }
}

impl MenuItem {
    /// An item with the given label, shown at rest, with no position and no
    /// alternative matches.
    pub fn new(visible_name: String) -> (r: Self)
        ensures
            r.visible_name == visible_name,
            r.visible_at_rest,
            r.at_rest_position is None,
            r.alternative_matches is None,
    {
        MenuItem {
            visible_name,
            visible_at_rest: true,
            at_rest_position: None,
            alternative_matches: None,
        }
    }

    /// Sets whether the item is shown while no search matches anything.
    pub fn visible_at_rest(self, visible: bool) -> (r: Self)
        ensures
            r == (MenuItem { visible_at_rest: visible, ..self }),
    {
        MenuItem { visible_at_rest: visible, ..self }
    }

    /// Sets the item's position among the items shown at rest.
    pub fn at_rest_position(self, position: usize) -> (r: Self)
        ensures
            r == (MenuItem { at_rest_position: Some(position), ..self }),
    {
        MenuItem { at_rest_position: Some(position), ..self }
    }

    /// Appends strings to the item's alternative matches, after those it had.
    pub fn add_alternative_match(self, new_matches: Vec<String>) -> (r: Self)
        ensures
            r.visible_name == self.visible_name,
            r.visible_at_rest == self.visible_at_rest,
            r.at_rest_position == self.at_rest_position,
            r.alternative_matches is Some,
            alternatives_of(r) == alternatives_of(self) + new_matches@,
    {
        let mut cur_matches: Vec<String> = match self.alternative_matches {
            Some(v) => v,
            None => Vec::new(),
        };
        let mut new_matches = new_matches;
        cur_matches.append(&mut new_matches);
        MenuItem {
            visible_name: self.visible_name,
            visible_at_rest: self.visible_at_rest,
            at_rest_position: self.at_rest_position,
            alternative_matches: Some(cur_matches),
        }
    }
}

} // verus!
