//! The settings and highlight of the scrolling item lists that the store,
//! the blacksmith and the modals show.
use vstd::prelude::*;

use crate::selection::Selection;
use crate::text::push_str;

verus! {

/// The background an item list is drawn on.
#[derive(Debug, Clone, Copy, PartialEq, Eq, Structural)]
pub enum ListBackground {
    /// The screen's own background shows through.
    Transparent,
    /// The parchment tint of the modals.
    Parchment,
}

/// How an item list is shown.
pub struct ItemListConfig {
    pub show_filter_button: bool,
    pub show_scroll_indicators: bool,
    /// Rows shown at once.
    pub visible_count: usize,
    /// Whether a back row ends the list.
    pub show_back_button: bool,
    /// The back row's label.
    pub back_label: String,
    pub background: ListBackground,
}

/// A list's settings with a filter button and scroll indicators.
pub fn list_config(visible_count: usize, show_back_button: bool, back_label: &str, background: ListBackground) -> (c: ItemListConfig)
    ensures
        c.show_filter_button,
        c.show_scroll_indicators,
        c.visible_count == visible_count,
        c.show_back_button == show_back_button,
        c.back_label@ == back_label@,
        c.background == background,
{
    let mut label = String::new();
    push_str(&mut label, back_label);
    ItemListConfig {
        show_filter_button: true,
        show_scroll_indicators: true,
        visible_count,
        show_back_button,
        back_label: label,
        background,
    }
}

/// An item list: its settings and its highlighted row.
pub struct ItemList {
    pub config: ItemListConfig,
    pub selection: Selection,
}

impl ItemList {
    /// A list shown with `config`, its first row highlighted.
    pub fn new(config: ItemListConfig) -> (l: Self)
        ensures
            l.config == config,
            l.selection.selected == Some(0usize),
    {
        ItemList { config, selection: Selection::first() }
    }

    /// Highlights the first row again.
    pub fn reset_selection(&mut self)
        ensures
            final(self).config == old(self).config,
            final(self).selection.selected == Some(0usize),
    {
        self.selection.select(Some(0));
    }
}

} // verus!
