//! The paginated menu: a fixed list of labels, a selected index that
//! moves one step per Up/Down sample and saturates at both ends, and a
//! page index that is always derived from the selection.

use vstd::prelude::*;

verus! {

/// Number of menu entries shown on one page.
pub const ITEMS_PER_PAGE: usize = 4;

/// Mathematical image of a `MenuModel`.
#[verifier::ext_equal]
pub ghost struct MenuView {
    pub items: Seq<Seq<char>>,
    pub selected: int,
    pub page: int,
}

impl MenuView {
    /// Well-formed: at least one item, the selection indexes an item,
    /// and the page is derived from the selection, never independently
    /// stale.
    pub open spec fn wf(self) -> bool {
        &&& self.items.len() >= 1
        &&& 0 <= self.selected < self.items.len()
        &&& self.page == self.selected / (ITEMS_PER_PAGE as int)
    }
}

/// Saturating one-step move of the selection toward the first item.
pub open spec fn spec_up(sel: int) -> int {
    if sel > 0 { sel - 1 } else { 0 }
}

/// Saturating one-step move of the selection toward the last of `n`
/// items.
pub open spec fn spec_down(sel: int, n: int) -> int {
    if sel + 1 < n { sel + 1 } else { n - 1 }
}

/// Selection after one tick of menu input: an asserted Up is applied
/// first, then an asserted Down, each saturating at its end.
pub open spec fn spec_navigate(sel: int, n: int, up: bool, down: bool) -> int {
    let after_up = if up { spec_up(sel) } else { sel };
    if down { spec_down(after_up, n) } else { after_up }
}

/// Selection after a whole sequence of (up, down) samples, applied in
/// order.
pub open spec fn spec_navigate_seq(sel: int, n: int, presses: Seq<(bool, bool)>) -> int
    decreases presses.len(),
{
    if presses.len() == 0 {
        sel
    } else {
        spec_navigate_seq(
            spec_navigate(sel, n, presses[0].0, presses[0].1),
            n,
            presses.drop_first(),
        )
    }
}

/// Law: under any sequence of Up/Down samples the selection stays
/// within the item range; it saturates at both ends and never wraps.
pub proof fn lemma_selection_stays_in_bounds(sel: int, n: int, presses: Seq<(bool, bool)>)
    requires
        0 <= sel < n,
    ensures
        0 <= spec_navigate_seq(sel, n, presses) < n,
    decreases presses.len(),
{
    if presses.len() > 0 {
        lemma_selection_stays_in_bounds(
            spec_navigate(sel, n, presses[0].0, presses[0].1),
            n,
            presses.drop_first(),
        );
    }
}

/// The menu the badge shows: compiled-in labels, the selected item and
/// the page it sits on.
pub struct MenuModel {
    pub items: Vec<String>,
    pub selected_index: usize,
    pub page_index: usize,
}

impl View for MenuModel {
    type V = MenuView;

    open spec fn view(&self) -> MenuView {
        MenuView {
            items: self.items@.map_values(|s: String| s@),
            selected: self.selected_index as int,
            page: self.page_index as int,
        }
    }
}

impl MenuModel {
    /// A fresh menu with the first item selected, on the first page.
    pub fn new(items: Vec<String>) -> (m: MenuModel)
        requires
            items.len() >= 1,
        ensures
            m@.wf(),
            m@.items == items@.map_values(|s: String| s@),
            m@.selected == 0,
            m@.page == 0,
    {
        MenuModel { items, selected_index: 0, page_index: 0 }
    }

    /// One tick of menu input. An asserted Up moves the selection one
    /// item back and an asserted Down one item forward, both saturating;
    /// the page is recomputed from the new selection. Returns whether
    /// the selection moved, so that the caller redraws only then: a
    /// saturated press changes nothing and is not worth a flush of the
    /// slow, wear-sensitive display.
    pub fn handle_menu_program(&mut self, btn_up_pressed: bool, btn_down_pressed: bool) -> (moved: bool)
        requires
            old(self)@.wf(),
        ensures
            final(self)@.wf(),
            final(self)@.items == old(self)@.items,
            final(self)@.selected == spec_navigate(
                old(self)@.selected,
                old(self)@.items.len() as int,
                btn_up_pressed,
                btn_down_pressed,
            ),
            final(self)@.page == final(self)@.selected / (ITEMS_PER_PAGE as int),
            moved == (final(self)@.selected != old(self)@.selected),
    {
        let before: usize = self.selected_index;
        if btn_up_pressed {
            if self.selected_index > 0 {
                self.selected_index -= 1;
            }
        }
        if btn_down_pressed {
            if self.selected_index < self.items.len() - 1 {
                self.selected_index += 1;
            }
        }
        self.page_index = self.selected_index / ITEMS_PER_PAGE;
        self.selected_index != before
    }

    /// Index of the first item on the current page.
    pub fn page_start_index(&self) -> (start: usize)
        requires
            self@.wf(),
        ensures
            start == self@.page * (ITEMS_PER_PAGE as int),
            start <= self@.selected,
    {
        proof {
            vstd::arithmetic::div_mod::lemma_fundamental_div_mod(
                self.selected_index as int,
                ITEMS_PER_PAGE as int,
            );
            vstd::arithmetic::div_mod::lemma_mod_bound(
                self.selected_index as int,
                ITEMS_PER_PAGE as int,
            );
        }
        self.page_index * ITEMS_PER_PAGE
    }

    /// Number the page label counts up to, as the badge shows it:
    /// one more than the number of whole pages the items fill.
    pub fn page_count(&self) -> (count: usize)
        requires
            self@.wf(),
        ensures
            count == (self@.items.len() as int) / (ITEMS_PER_PAGE as int) + 1,
    {
        self.items.len() / ITEMS_PER_PAGE + 1
    }
}

} // verus!
