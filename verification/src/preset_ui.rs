//! The preset popup: a filterable list of preset names, in load mode or in
//! save mode, where a synthetic create-new entry heads the list and stays
//! visible whatever the filter says.

use vstd::prelude::*;
use crate::fuzzy::{fuzzy_match, spec_fuzzy_match};
use crate::listing::indices_as_int;
use crate::paths::str_eq;

verus! {

/// The label of the synthetic create-new entry in save mode.
pub open spec fn spec_create_new_label() -> Seq<char> {
    "[ Create New Preset... ]"@
}

/// The synthetic entry that saves the marks under a new name.
pub fn create_new_label() -> (r: &'static str)
    ensures
        r@ == spec_create_new_label(),
{
    "[ Create New Preset... ]"
}

/// Whether the popup loads a preset or saves the marks into one.
#[derive(Debug, Clone, Copy, PartialEq, Eq, Structural)]
pub enum PresetUiMode {
    Load,
    Save,
}

/// The indices of the items that pass the filter; in save mode the
/// sentinel at the front is handled apart.
pub open spec fn spec_preset_filtered(
    items: Seq<String>,
    skip_first: bool,
    filter: Seq<char>,
) -> Seq<int>
    decreases items.len(),
{
    if items.len() == 0 {
        Seq::empty()
    } else {
        let rest = spec_preset_filtered(items.drop_last(), skip_first, filter);
        let idx = items.len() - 1;
        if idx == 0 && skip_first {
            rest
        } else if filter.len() == 0 || spec_fuzzy_match(items.last()@, filter) {
            rest.push(idx)
        } else {
            rest
        }
    }
}

/// The visible indices: in save mode the sentinel always leads, then the
/// filtered rest; in load mode just the filtered items.
pub open spec fn spec_preset_visible(
    items: Seq<String>,
    mode: PresetUiMode,
    filter: Seq<char>,
) -> Seq<int> {
    if mode is Save {
        if items.len() > 0 {
            seq![0int] + spec_preset_filtered(items, true, filter)
        } else {
            Seq::empty()
        }
    } else {
        spec_preset_filtered(items, false, filter)
    }
}

/// The name the highlighted row denotes, when the selection points into
/// the visible list and that row points into the items.
pub open spec fn spec_popup_selected(p: PresetUiState) -> Option<Seq<char>> {
    if p.selection < p.visible_indices@.len() && (p.visible_indices@[p.selection as int] as int)
        < p.items@.len() {
        Some(p.items@[p.visible_indices@[p.selection as int] as int]@)
    } else {
        None
    }
}

/// The popup's state: its items, the visible subset, the highlighted row
/// and the incremental filter.
#[derive(Debug)]
pub struct PresetUiState {
    pub mode: PresetUiMode,
    pub items: Vec<String>,
    pub visible_indices: Vec<usize>,
    pub selection: usize,
    pub filter_input: String,
    pub filter_mode: bool,
}

/// Clamp a position into `[0, len)`.
pub open spec fn spec_clamp(v: int, len: int) -> int {
    if v < 0 {
        0
    } else if v >= len {
        len - 1
    } else {
        v
    }
}

impl PresetUiState {
    /// A fresh popup over the given items, with nothing filtered yet.
    pub fn new(mode: PresetUiMode, items: Vec<String>) -> (r: Self)
        ensures
            r.mode == mode,
            r.items == items,
            r.selection == 0,
            r.filter_input@.len() == 0,
            !r.filter_mode,
    {
        PresetUiState {
            mode,
            items,
            visible_indices: Vec::new(),
            selection: 0,
            filter_input: String::new(),
            filter_mode: false,
        }
    }

    /// Recompute the visible subset under the filter and clamp the
    /// highlighted row into it.
    pub fn rebuild_visible(&mut self)
        ensures
            indices_as_int(final(self).visible_indices@) == spec_preset_visible(
                old(self).items@,
                old(self).mode,
                old(self).filter_input@,
            ),
            final(self).visible_indices@.len() == 0 ==> final(self).selection == 0,
            final(self).visible_indices@.len() > 0 ==> final(self).selection < final(self).visible_indices@.len(),
            final(self).visible_indices@.len() > 0 && old(self).selection < final(self).visible_indices@.len() ==> final(self).selection == old(self).selection,
            final(self).mode == old(self).mode,
            final(self).items == old(self).items,
            final(self).filter_input == old(self).filter_input,
            final(self).filter_mode == old(self).filter_mode,
    {
        let mut vis: Vec<usize> = Vec::new();
        let is_save = match self.mode {
            PresetUiMode::Save => true,
            PresetUiMode::Load => false,
        };
        if is_save && self.items.len() > 0 {
            vis.push(0);
        }
        let ghost lead = vis@;
        proof {
            assert(indices_as_int(vis@) =~= indices_as_int(lead));
            assert(spec_preset_filtered(self.items@.take(0), is_save, self.filter_input@)
                =~= Seq::<int>::empty());
            assert(indices_as_int(lead) + Seq::<int>::empty() =~= indices_as_int(lead));
        }
        let filter_empty = self.filter_input.as_str().unicode_len() == 0;
        let mut k: usize = 0;
        while k < self.items.len()
            invariant
                k <= self.items@.len(),
                filter_empty == (self.filter_input@.len() == 0),
                indices_as_int(vis@) == indices_as_int(lead) + spec_preset_filtered(
                    self.items@.take(k as int),
                    is_save,
                    self.filter_input@,
                ),
                *self == *old(self),
            decreases self.items@.len() - k,
        {
            proof {
                assert(self.items@.take(k as int + 1).drop_last() =~= self.items@.take(k as int));
                assert(self.items@.take(k as int + 1).last() == self.items@[k as int]);
            }
            let included = if is_save && k == 0 {
                false
            } else {
                filter_empty || fuzzy_match(self.items[k].as_str(), self.filter_input.as_str())
            };
            if included {
                let ghost old_vis = vis@;
                vis.push(k);
                proof {
                    assert(indices_as_int(vis@) =~= indices_as_int(old_vis).push(k as int));
                    assert(indices_as_int(old_vis).push(k as int) =~= indices_as_int(lead)
                        + spec_preset_filtered(
                        self.items@.take(k as int + 1),
                        is_save,
                        self.filter_input@,
                    ));
                }
            }
            k = k + 1;
        }
        proof {
            assert(self.items@.take(self.items@.len() as int) =~= self.items@);
            if is_save && self.items@.len() > 0 {
                assert(indices_as_int(lead) =~= seq![0int]);
            }
            if !is_save {
                assert(indices_as_int(lead) =~= Seq::<int>::empty());
                assert(indices_as_int(lead) + spec_preset_filtered(
                    self.items@,
                    is_save,
                    self.filter_input@,
                ) =~= spec_preset_filtered(self.items@, is_save, self.filter_input@));
            }
            if is_save && self.items@.len() == 0 {
                assert(indices_as_int(vis@) =~= Seq::<int>::empty());
            }
        }
        self.visible_indices = vis;
        if self.visible_indices.len() == 0 {
            self.selection = 0;
        } else if self.selection >= self.visible_indices.len() {
            self.selection = self.visible_indices.len() - 1;
        }
    }

    /// Move the highlighted row, clamped to the visible list's bounds.
    pub fn move_selection(&mut self, delta: isize)
        ensures
            old(self).visible_indices@.len() == 0 ==> final(self).selection == old(self).selection,
            old(self).visible_indices@.len() > 0 ==> final(self).selection as int == spec_clamp(
                old(self).selection as int + delta as int,
                old(self).visible_indices@.len() as int,
            ),
            final(self).visible_indices == old(self).visible_indices,
            final(self).items == old(self).items,
            final(self).mode == old(self).mode,
            final(self).filter_input == old(self).filter_input,
            final(self).filter_mode == old(self).filter_mode,
    {
        if self.visible_indices.len() == 0 {
            return ;
        }
        let len = self.visible_indices.len();
        let target: i128 = self.selection as i128 + delta as i128;
        if target < 0 {
            self.selection = 0;
        } else if target >= len as i128 {
            self.selection = len - 1;
        } else {
            self.selection = target as usize;
        }
    }

    /// The highlighted item, if any row is visible and in range.
    pub fn selected_item(&self) -> (r: Option<String>)
        ensures
            match r {
                Some(s) => spec_popup_selected(*self) == Some(s@),
                None => spec_popup_selected(*self) is None,
            },
    {
        if self.selection < self.visible_indices.len() {
            let idx = self.visible_indices[self.selection];
            if idx < self.items.len() {
                Some(self.items[idx].clone())
            } else {
                None
            }
        } else {
            None
        }
    }

    /// The search box's caption.
    pub fn filter_instruction(&self) -> (r: String) {
        if self.filter_mode {
            let mut s = String::from_str("Search: ");
            s.append(self.filter_input.as_str());
            s.append("_");
            s
        } else if self.filter_input.as_str().unicode_len() == 0 {
            String::from_str("Press '/' to search")
        } else {
            let mut s = String::from_str("Search: ");
            s.append(self.filter_input.as_str());
            s
        }
    }

    /// Whether the item is the synthetic create-new entry of save mode.
    pub fn is_create_new(&self, item: &str) -> (r: bool)
        ensures
            r == (self.mode is Save && item@ == spec_create_new_label()),
    {
        match self.mode {
            PresetUiMode::Save => str_eq(item, create_new_label()),
            PresetUiMode::Load => false,
        }
    }
}

} // verus!
