use crate::action::Action;
use crate::strings::clone_strings;
use crate::filter::{filter_names, names_view};
use crate::selection::{
    as_int, clamp_index, clamp_spec, next_spec, previous_spec, scroll_down_spec, scroll_up_spec,
    Selection,
};
use vstd::prelude::*;

verus! {

/// How many rows a scroll step moves in the table list.
pub const TABLE_SCROLL_STEP: usize = 5;

/// The selection after the view was recomputed with `len` rows: kept when it
/// still fits, pulled to the last row when not, and the first row when
/// nothing was selected.
pub open spec fn after_refilter(sel: Option<usize>, len: nat) -> Option<nat> {
    match sel {
        None => clamp_index(0, len),
        Some(i) => clamp_index(i as int, len),
    }
}

/// The list of table names, its filtered view and the selection in it.
pub struct CollectionsBox {
    pub active: bool,
    pub collections: Vec<String>,
    pub filtered_collections: Vec<String>,
    pub selection: Selection,
    pub selected_collection: String,
    pub filter_text: String,
}

impl CollectionsBox {
    pub open spec fn wf(&self) -> bool {
        &&& self.filtered_collections@ == names_view(self.collections@, self.filter_text@)
        &&& self.selection.within(self.filtered_collections@.len())
    }

    pub fn new() -> (r: CollectionsBox)
        ensures
            r.wf(),
            r.collections@.len() == 0,
            r.selection.selected is None,
            !r.active,
    {
        let r = CollectionsBox {
            active: false,
            collections: Vec::new(),
            filtered_collections: Vec::new(),
            selection: Selection::new(),
            selected_collection: String::new(),
            filter_text: String::new(),
        };
        assert(r.filtered_collections@ == names_view(r.collections@, r.filter_text@));
        r
    }

    /// Recomputes the filtered names and pulls the selection back inside them.
    pub fn apply_filter(&mut self)
        ensures
            final(self).wf(),
            final(self).filtered_collections@ == names_view(old(self).collections@, old(self).filter_text@),
            old(self).filter_text@.len() == 0 ==> final(self).filtered_collections@
                == old(self).collections@,
            final(self).selection == old(self).selection.moved_to(
                clamp_spec(old(self).selection.selected, final(self).filtered_collections@.len()),
            ),
            final(self).collections == old(self).collections,
            final(self).filter_text == old(self).filter_text,
            final(self).selected_collection == old(self).selected_collection,
            final(self).active == old(self).active,
    {
        self.filtered_collections = filter_names(&self.collections, self.filter_text.as_str());
        self.selection.clamp(self.filtered_collections.len());
    }

    pub fn select_first(&mut self)
        requires
            old(self).wf(),
        ensures
            final(self).wf(),
            final(self).selection == old(self).selection.moved_to(
                clamp_index(0, old(self).filtered_collections@.len()),
            ),
    {
        self.selection.select_first(self.filtered_collections.len());
    }

    /// Takes the highlighted name as the chosen table; says whether the
    /// choice changed.
    pub fn set_selected(&mut self) -> (changed: bool)
        requires
            old(self).wf(),
        ensures
            final(self).wf(),
            match old(self).selection.selected {
                None => !changed && final(self).selected_collection == old(self).selected_collection,
                Some(i) => {
                    &&& final(self).selected_collection@ == old(self).filtered_collections@[i as int]@
                    &&& changed == (old(self).filtered_collections@[i as int]@ != old(self).selected_collection@)
                },
            },
    {
        match self.selection.selected {
            None => false,
            Some(i) => {
                if self.filtered_collections[i] == self.selected_collection {
                    false
                } else {
                    self.selected_collection = self.filtered_collections[i].clone();
                    true
                }
            },
        }
    }

    /// After the names or the filter changed: refilter, then select the first
    /// row when nothing is selected.
    fn refresh(&mut self)
        ensures
            final(self).wf(),
            as_int(final(self).selection.selected) == after_refilter(
                old(self).selection.selected,
                final(self).filtered_collections@.len(),
            ),
            final(self).selected_collection == old(self).selected_collection,
            final(self).filtered_collections@ == names_view(old(self).collections@, old(self).filter_text@),
            final(self).collections == old(self).collections,
            final(self).filter_text == old(self).filter_text,
            final(self).selection.selected is None ==> final(self).filtered_collections@.len() == 0,
    {
        self.apply_filter();
        self.selection.select_first_if_needed(self.filtered_collections.len());
    }

    /// Applies one action and returns the actions it gives rise to.
    pub fn update(&mut self, action: &Action) -> (out: Vec<Action>)
        requires
            old(self).wf(),
        ensures
            final(self).wf(),
            action is TransmitTables ==> {
                &&& final(self).filter_text == old(self).filter_text
                &&& as_int(final(self).selection.selected) == after_refilter(
                    old(self).selection.selected,
                    final(self).filtered_collections@.len(),
                )
                &&& final(self).collections@ == action->TransmitTables_0@
                &&& final(self).filtered_collections@ == names_view(
                    action->TransmitTables_0@,
                    old(self).filter_text@,
                )
            },
            action is TransmitSubmittedText ==> {
                &&& as_int(final(self).selection.selected) == after_refilter(
                    old(self).selection.selected,
                    final(self).filtered_collections@.len(),
                )
                &&& final(self).filter_text@ == action->TransmitSubmittedText_0@
                &&& final(self).filtered_collections@ == names_view(
                    old(self).collections@,
                    action->TransmitSubmittedText_0@,
                )
            },
            action is SelectTableNext ==> as_int(final(self).selection.selected) == next_spec(
                old(self).selection.selected,
                old(self).filtered_collections@.len(),
            ),
            action is SelectTablePrev ==> as_int(final(self).selection.selected) == previous_spec(
                old(self).selection.selected,
                old(self).filtered_collections@.len(),
            ),
            action is SelectTableScrollDown ==> as_int(final(self).selection.selected)
                == scroll_down_spec(
                old(self).selection.selected,
                TABLE_SCROLL_STEP as nat,
                old(self).filtered_collections@.len(),
            ),
            action is SelectTableScrollUp ==> as_int(final(self).selection.selected)
                == scroll_up_spec(
                old(self).selection.selected,
                TABLE_SCROLL_STEP as nat,
                old(self).filtered_collections@.len(),
            ),
            action is SelectTableFirst ==> as_int(final(self).selection.selected) == clamp_index(
                0,
                old(self).filtered_collections@.len(),
            ),
            action is SelectTableLast ==> as_int(final(self).selection.selected) == clamp_index(
                old(self).filtered_collections@.len() - 1,
                old(self).filtered_collections@.len(),
            ),
            (action is FilteringTables || action is SelectingRegion || action is SelectDataMode
                || action is ViewTableDataRowDetail) ==> !final(self).active
                && final(self).selection.selected is None,
            action is SelectTable ==> match old(self).selection.selected {
                Some(i) => final(self).selected_collection@ == old(self).filtered_collections@[i as int]@,
                None => final(self).selected_collection == old(self).selected_collection,
            },
            action is SelectTable ==> out@.len() == 3 && out@[0] is StartLoading
                && out@[0]->StartLoading_0@ == "Fetching Table Data"@
                && out@[1] == Action::TransmitSelectedTable(final(self).selected_collection)
                && out@[2] is FetchTableData
                && out@[2]->FetchTableData_0@ == final(self).selected_collection@,
            action is SelectTableMode ==> {
                &&& final(self).active
                &&& out@.last() is FetchTables
                &&& out@.len() == if old(self).collections@.len() == 0 { 2nat } else { 1nat }
            },
    {
        let mut out: Vec<Action> = Vec::new();
        match action {
            Action::SelectTableMode => {
                self.active = true;
                if self.collections.len() == 0 {
                    out.push(Action::StartLoading(String::from_str("Fetching Tables")));
                }
                out.push(Action::FetchTables);
            },
            Action::FilteringTables
            | Action::SelectingRegion
            | Action::SelectDataMode
            | Action::ViewTableDataRowDetail => {
                self.active = false;
                self.selection.select_none();
            },
            Action::TransmitSubmittedText(text) => {
                self.filter_text = text.clone();
                self.refresh();
            },
            Action::TransmitTables(tables) => {
                self.collections = clone_strings(tables);
                self.refresh();
            },
            Action::SelectTablePrev => self.selection.select_previous(self.filtered_collections.len()),
            Action::SelectTableNext => self.selection.select_next(self.filtered_collections.len()),
            Action::SelectTableScrollUp => {
                self.selection.scroll_up(TABLE_SCROLL_STEP, self.filtered_collections.len())
            },
            Action::SelectTableScrollDown => {
                self.selection.scroll_down(TABLE_SCROLL_STEP, self.filtered_collections.len())
            },
            Action::SelectTableFirst => self.selection.select_first(self.filtered_collections.len()),
            Action::SelectTableLast => self.selection.select_last(self.filtered_collections.len()),
            Action::SelectTable => {
                self.set_selected();
                out.push(Action::StartLoading(String::from_str("Fetching Table Data")));
                out.push(Action::TransmitSelectedTable(self.selected_collection.clone()));
                out.push(Action::FetchTableData(self.selected_collection.clone()));
            },
            _ => {},
        }
        out
    }
}

} // verus!
