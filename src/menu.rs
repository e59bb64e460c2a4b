use vstd::prelude::*;

use crate::item::MenuItem;
use crate::options::{is_default_options, MenuOptions};

verus! {

/// A menu: a prompt, its items, and how it looks and behaves.
#[derive(Clone, Debug, PartialEq)]
pub struct Menu {
    /// Shown on the input line, in front of what the user types.
    pub prompt: String,
    /// The items, in the order they are listed.
    pub items: Vec<MenuItem>,
    /// The configuration used while the menu runs.
    pub configuration: MenuOptions,
}

impl Menu {
    /// A menu from a prompt, its items and a configuration; the default
    /// configuration when none is given.
    pub fn new(prompt: String, menu_items: Vec<MenuItem>, configuration: Option<MenuOptions>) -> (r:
        Menu)
        ensures
            r.prompt == prompt,
            r.items == menu_items,
            configuration matches Some(c) ==> r.configuration == c,
            configuration is None ==> is_default_options(r.configuration),
    {
        let configuration = match configuration {
            Some(c) => c,
            None => MenuOptions::new(),
        };
        Menu { prompt, items: menu_items, configuration }
    }
}

} // verus!
