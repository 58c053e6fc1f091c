use crate::action::Action;
use crate::json::{parse_json, parsed_json, Json};
use crate::tree::{
    build_tree, path_view, rows_view, same_path, toggled, tree_rows, ExpansionMemory, RowView,
    TreeRow,
};
use crate::strings::clone_strings;
use vstd::prelude::*;

verus! {

/// How many rows a page scroll moves in the detail view.
pub const PAGE_ROWS: usize = 10;

/// Half the rows that the detail view shows: a toggled row is centred this
/// far below the top.
pub const HALF_PAGE: usize = 5;

pub open spec fn clamp_row(i: nat, len: nat) -> nat {
    if len == 0 {
        0
    } else if i >= len {
        (len - 1) as nat
    } else {
        i
    }
}

/// The drill-down view of one record: its visible rows under the remembered
/// expansion state, the highlighted row and the scroll offsets.
pub struct DataDetailBox {
    pub active: bool,
    pub title: String,
    pub row: String,
    pub record: Option<Json>,
    pub tree: Vec<TreeRow>,
    pub vertical_scroll: usize,
    pub horizontal_scroll: usize,
    pub selected_index: usize,
    pub expanded_states: ExpansionMemory,
}

impl DataDetailBox {
    pub open spec fn rows_for(record: Option<Json>, mem: Set<Seq<Seq<char>>>) -> Seq<RowView> {
        match record {
            Some(j) => tree_rows(j, mem),
            None => Seq::empty(),
        }
    }

    /// The rows match the record and the remembered state, and the highlight
    /// lies on a row (or at 0 when there is none).
    pub open spec fn wf(&self) -> bool {
        &&& self.expanded_states.wf()
        &&& rows_view(self.tree@) == Self::rows_for(self.record, self.expanded_states.expanded())
        &&& self.selected_index == clamp_row(self.selected_index as nat, self.tree@.len())
    }

    pub fn new() -> (r: DataDetailBox)
        ensures
            r.wf(),
            r.tree@.len() == 0,
            r.title@ == "JSON Viewer"@,
            r.expanded_states.expanded() == Set::<Seq<Seq<char>>>::empty(),
    {
        let r = DataDetailBox {
            active: false,
            title: String::from_str("JSON Viewer"),
            row: String::new(),
            record: None,
            tree: Vec::new(),
            vertical_scroll: 0,
            horizontal_scroll: 0,
            selected_index: 0,
            expanded_states: ExpansionMemory::new(),
        };
        assert(rows_view(r.tree@) =~= Seq::<RowView>::empty());
        r
    }

    /// Rebuilds the rows from the record and the remembered state, and pulls
    /// the highlight back onto a row.
    fn rebuild(&mut self)
        requires
            old(self).expanded_states.wf(),
        ensures
            final(self).wf(),
            final(self).record == old(self).record,
            final(self).expanded_states == old(self).expanded_states,
            final(self).selected_index == clamp_row(
                old(self).selected_index as nat,
                final(self).tree@.len(),
            ),
            final(self).vertical_scroll == old(self).vertical_scroll,
            final(self).row == old(self).row,
    {
        match &self.record {
            Some(j) => {
                self.tree = build_tree(j, &self.expanded_states);
            },
            None => {
                self.tree = Vec::new();
                assert(rows_view(self.tree@) =~= Seq::<RowView>::empty());
            },
        }
        if self.tree.len() == 0 {
            self.selected_index = 0;
        } else if self.selected_index >= self.tree.len() {
            self.selected_index = self.tree.len() - 1;
        }
    }

    /// Shows a new record; a text that is not valid JSON shows no rows.
    pub fn set_record(&mut self, row: &str)
        requires
            old(self).wf(),
        ensures
            final(self).wf(),
            final(self).row@ == row@,
            final(self).record == parsed_json(row@),
            final(self).expanded_states == old(self).expanded_states,
    {
        self.row = String::from_str(row);
        self.record = parse_json(row);
        self.rebuild();
    }

    /// Scrolls so that row `index` sits half a page below the top.
    pub fn center_scroll_on(&mut self, index: usize)
        ensures
            final(self).vertical_scroll == if index <= HALF_PAGE { 0 } else { index - HALF_PAGE },
            *final(self) == (DataDetailBox { vertical_scroll: final(self).vertical_scroll, ..*old(self) }),
    {
        self.vertical_scroll = if index <= HALF_PAGE { 0 } else { index - HALF_PAGE };
    }

    fn row_position(&self, path: &Vec<String>) -> (r: Option<usize>)
        ensures
            match r {
                Some(i) => i < self.tree@.len() && path_view(self.tree@[i as int].path@)
                    == path_view(path@),
                None => true,
            },
    {
        let mut i: usize = 0;
        while i < self.tree.len()
            invariant
                i <= self.tree.len(),
            decreases self.tree.len() - i,
        {
            if same_path(&self.tree[i].path, path) {
                return Some(i);
            }
            i = i + 1;
        }
        None
    }

    /// Flips the remembered expansion of exactly `path`, centres the view on
    /// its row and rebuilds the rows.
    pub fn toggle_node(&mut self, path: &Vec<String>)
        requires
            old(self).wf(),
        ensures
            final(self).wf(),
            final(self).expanded_states.expanded() == toggled(
                old(self).expanded_states.expanded(),
                path_view(path@),
            ),
            final(self).record == old(self).record,
            rows_view(final(self).tree@) == Self::rows_for(
                old(self).record,
                toggled(old(self).expanded_states.expanded(), path_view(path@)),
            ),
            final(self).selected_index == clamp_row(
                old(self).selected_index as nat,
                final(self).tree@.len(),
            ),
            final(self).row == old(self).row,
    {
        if let Some(index) = self.row_position(path) {
            self.center_scroll_on(index);
        }
        self.expanded_states.toggle(path);
        self.rebuild();
    }

    /// Toggles the highlighted row, if there is one.
    pub fn toggle_selected(&mut self)
        requires
            old(self).wf(),
        ensures
            final(self).record == old(self).record,
            final(self).row == old(self).row,
            final(self).wf(),
            old(self).tree@.len() > 0 ==> final(self).expanded_states.expanded() == toggled(
                old(self).expanded_states.expanded(),
                old(self).tree@[old(self).selected_index as int]@.path,
            ),
            old(self).tree@.len() == 0 ==> final(self).expanded_states == old(self).expanded_states,
    {
        if self.selected_index < self.tree.len() {
            let path = clone_strings(&self.tree[self.selected_index].path);
            self.toggle_node(&path);
        }
    }

    pub fn navigate_up(&mut self)
        requires
            old(self).wf(),
        ensures
            final(self).record == old(self).record,
            final(self).row == old(self).row,
            final(self).expanded_states == old(self).expanded_states,
            final(self).wf(),
            final(self).selected_index == if old(self).selected_index == 0 {
                0
            } else {
                old(self).selected_index - 1
            },
    {
        if self.selected_index > 0 {
            self.selected_index = self.selected_index - 1;
        }
    }

    pub fn navigate_down(&mut self)
        requires
            old(self).wf(),
        ensures
            final(self).record == old(self).record,
            final(self).row == old(self).row,
            final(self).expanded_states == old(self).expanded_states,
            final(self).wf(),
            final(self).selected_index == clamp_row(
                old(self).selected_index as nat + 1,
                old(self).tree@.len(),
            ),
    {
        if self.selected_index < self.tree.len() && self.tree.len() - self.selected_index > 1 {
            self.selected_index = self.selected_index + 1;
        }
    }

    /// Scrolls a page up or down; the highlight follows the top row.
    pub fn scroll_vertically(&mut self, down: bool)
        requires
            old(self).wf(),
        ensures
            final(self).record == old(self).record,
            final(self).row == old(self).row,
            final(self).expanded_states == old(self).expanded_states,
            final(self).wf(),
            final(self).vertical_scroll == if down {
                if old(self).vertical_scroll > usize::MAX - PAGE_ROWS {
                    usize::MAX
                } else {
                    (old(self).vertical_scroll + PAGE_ROWS) as usize
                }
            } else if old(self).vertical_scroll <= PAGE_ROWS {
                0
            } else {
                (old(self).vertical_scroll - PAGE_ROWS) as usize
            },
            final(self).selected_index == clamp_row(
                final(self).vertical_scroll as nat,
                old(self).tree@.len(),
            ),
    {
        self.vertical_scroll = if down {
            self.vertical_scroll.saturating_add(PAGE_ROWS)
        } else {
            self.vertical_scroll.saturating_sub(PAGE_ROWS)
        };
        let n = self.tree.len();
        self.selected_index = if n == 0 {
            0
        } else if self.vertical_scroll >= n {
            n - 1
        } else {
            self.vertical_scroll
        };
    }

    /// Applies one action and returns the actions it gives rise to.
    pub fn update(&mut self, action: &Action) -> (out: Vec<Action>)
        requires
            old(self).wf(),
        ensures
            final(self).wf(),
            action is TransmitSelectedTableDataRow ==> {
                &&& final(self).row@ == action->TransmitSelectedTableDataRow_0@
                &&& final(self).record == parsed_json(action->TransmitSelectedTableDataRow_0@)
                &&& final(self).expanded_states == old(self).expanded_states
            },
            action is ExitViewTableDataRowMode ==> out@.len() == 1 && out@[0] is SelectDataMode,
            action is ViewTableDataRowToggleNode && old(self).tree@.len() > 0 ==> {
                &&& final(self).expanded_states.expanded() == toggled(
                    old(self).expanded_states.expanded(),
                    old(self).tree@[old(self).selected_index as int]@.path,
                )
                &&& out@.len() == 1
                &&& out@[0] is Render
            },
            action is ViewTableDataRowToggleNode && old(self).tree@.len() == 0 ==> out@.len() == 0
                && final(self).expanded_states == old(self).expanded_states,
            !(action is TransmitSelectedTableDataRow) ==> final(self).record == old(self).record
                && final(self).row == old(self).row,
            !(action is ViewTableDataRowToggleNode) ==> final(self).expanded_states == old(
                self,
            ).expanded_states,
            action is ViewTableDataRowNavigateUp ==> final(self).selected_index == if old(
                self,
            ).selected_index == 0 {
                0
            } else {
                old(self).selected_index - 1
            },
            action is ViewTableDataRowNavigateDown ==> final(self).selected_index == clamp_row(
                old(self).selected_index as nat + 1,
                old(self).tree@.len(),
            ),
            action is ViewTableDataRowDetail ==> final(self).active && final(self).vertical_scroll
                == 0 && final(self).horizontal_scroll == 0,
    {
        let mut out: Vec<Action> = Vec::new();
        match action {
            Action::ViewTableDataRowDetail => {
                self.active = true;
                self.horizontal_scroll = 0;
                self.vertical_scroll = 0;
            },
            Action::SelectingRegion
            | Action::FilteringTables
            | Action::SelectTableMode
            | Action::SelectDataMode => self.active = false,
            Action::ViewTableDataRowScrollUp => self.scroll_vertically(false),
            Action::ViewTableDataRowScrollDown => self.scroll_vertically(true),
            Action::ViewTableDataRowScrollLeft => {
                self.horizontal_scroll = self.horizontal_scroll.saturating_sub(1);
            },
            Action::ViewTableDataRowScrollRight => {
                self.horizontal_scroll = self.horizontal_scroll.saturating_add(1);
            },
            Action::TransmitSelectedTableDataRow(row) => self.set_record(row.as_str()),
            Action::ViewTableDataRowToggleNode => {
                if self.selected_index < self.tree.len() {
                    self.toggle_selected();
                    out.push(Action::Render);
                }
            },
            Action::ViewTableDataRowNavigateUp => self.navigate_up(),
            Action::ViewTableDataRowNavigateDown => self.navigate_down(),
            Action::ExitViewTableDataRowMode => out.push(Action::SelectDataMode),
            _ => {},
        }
        out
    }
}

} // verus!
