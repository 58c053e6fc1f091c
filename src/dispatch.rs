use crate::action::Action;
use crate::strings::clone_strings;
use crate::fetch::{copy_cursor, cursor_view, Cursor, FetchRequest, FetchResponse};
use vstd::prelude::*;

verus! {

/// The mode that decides which key bindings apply.
#[derive(Debug, Clone, Copy, PartialEq, Eq, Structural, Hash)]
pub enum Mode {
    View,
    Insert,
    FilterData,
    QueryData,
    SelectTable,
    SelectTableDataRow,
    ViewTableDataRowDetail,
}

impl Default for Mode {
    fn default() -> (r: Mode)
        ensures
            r == Mode::View,
    {
        Mode::View
    }
}

/// The mode after an action: mode-switching actions pick the next mode, all
/// others keep the current one.
pub open spec fn mode_after(mode: Mode, a: Action) -> Mode {
    match a {
        Action::FilterTableData => Mode::FilterData,
        Action::QueryTableData => Mode::QueryData,
        Action::EnterInsertMode => Mode::Insert,
        Action::ExitInsertMode => Mode::View,
        Action::SelectTableMode => Mode::SelectTable,
        Action::SelectDataMode
        | Action::ExitFilterTableData
        | Action::ExitQueryTableData
        | Action::SubmitFilterDataText => Mode::SelectTableDataRow,
        Action::ViewTableDataRowDetail => Mode::ViewTableDataRowDetail,
        _ => mode,
    }
}

/// What typing the character `c` means in `mode` when no binding claims the
/// key: a character of the text being edited in the three text-entry modes,
/// nothing elsewhere.
pub fn text_entry_action(mode: Mode, c: char) -> (r: Option<Action>)
    ensures
        mode == Mode::Insert ==> r == Some(Action::NewCharacter(c)),
        mode == Mode::FilterData ==> r == Some(Action::NewFilterDataCharacter(c)),
        mode == Mode::QueryData ==> r == Some(Action::NewQueryDataCharacter(c)),
        !(mode == Mode::Insert || mode == Mode::FilterData || mode == Mode::QueryData) ==> r is None,
{
    match mode {
        Mode::Insert => Some(Action::NewCharacter(c)),
        Mode::FilterData => Some(Action::NewFilterDataCharacter(c)),
        Mode::QueryData => Some(Action::NewQueryDataCharacter(c)),
        _ => None,
    }
}

/// The top-level state of the interactive loop: the active mode, the quit
/// and suspend flags, the table whose records are shown, and the cursor of
/// the last page received. The cursor stays stored until the next page
/// arrives; each next-page request carries an exact copy of it.
pub struct Dispatcher {
    pub mode: Mode,
    pub should_quit: bool,
    pub should_suspend: bool,
    pub collection: String,
    pub last_evaluated_key: Option<Cursor>,
}

impl Dispatcher {
    pub fn new() -> (r: Dispatcher)
        ensures
            r.mode == Mode::View,
            !r.should_quit,
            !r.should_suspend,
            r.last_evaluated_key is None,
            r.collection@.len() == 0,
    {
        Dispatcher {
            mode: Mode::View,
            should_quit: false,
            should_suspend: false,
            collection: String::new(),
            last_evaluated_key: None,
        }
    }

    /// Applies an action to the loop's own state and returns the requests
    /// for the fetch worker that it calls for.
    pub fn handle_action(&mut self, action: &Action) -> (out: Vec<FetchRequest>)
        ensures
            final(self).mode == mode_after(old(self).mode, *action),
            action is Quit ==> final(self).should_quit,
            !(action is Quit) ==> final(self).should_quit == old(self).should_quit,
            action is Suspend ==> final(self).should_suspend,
            action is Resume ==> !final(self).should_suspend,
            action is FetchTables ==> out@.len() == 1 && out@[0] is Tables,
            action is FetchTableData ==> {
                &&& out@.len() == 2
                &&& out@[0] == FetchRequest::GetApproximateItemCount(action->FetchTableData_0)
                &&& out@[1] == FetchRequest::TableData(action->FetchTableData_0)
                &&& final(self).last_evaluated_key is None
                &&& final(self).collection == action->FetchTableData_0
            },
            action is FetchMoreTableData ==> {
                &&& out@.len() == 2
                &&& out@[0] == FetchRequest::GetApproximateItemCount(
                    action->FetchMoreTableData_0,
                )
                &&& out@[1] is NextBatchTableData
                &&& out@[1]->NextBatchTableData_0 == action->FetchMoreTableData_0
                &&& cursor_view(out@[1]->NextBatchTableData_1) == cursor_view(
                    old(self).last_evaluated_key,
                )
                &&& final(self).last_evaluated_key == old(self).last_evaluated_key
            },
            action is GetTableDescription ==> out@.len() == 1 && out@[0]
                == FetchRequest::DescribeTable(action->GetTableDescription_0),
            action is GetTableQueryDataByPk ==> out@.len() == 1 && out@[0] == FetchRequest::QueryTableByPk(
                action->GetTableQueryDataByPk_0,
                action->GetTableQueryDataByPk_1,
                action->GetTableQueryDataByPk_2,
            ),
            action is GetTableQueryDataByPkSk ==> out@.len() == 1 && out@[0] == FetchRequest::QueryTableByPkSk(
                action->GetTableQueryDataByPkSk_0,
                action->GetTableQueryDataByPkSk_1,
                action->GetTableQueryDataByPkSk_2,
                action->GetTableQueryDataByPkSk_3,
                action->GetTableQueryDataByPkSk_4,
            ),
            !(action is FetchTables || action is FetchTableData || action is FetchMoreTableData
                || action is GetTableDescription || action is GetTableQueryDataByPk
                || action is GetTableQueryDataByPkSk) ==> out@.len() == 0,
            !(action is FetchTableData) ==> final(self).last_evaluated_key == old(
                self,
            ).last_evaluated_key,
            !(action is FetchTableData || action is GetTableQueryDataByPk
                || action is GetTableQueryDataByPkSk) ==> final(self).collection
                == old(self).collection,
            action is GetTableQueryDataByPk ==> final(self).collection
                == action->GetTableQueryDataByPk_0,
            action is GetTableQueryDataByPkSk ==> final(self).collection
                == action->GetTableQueryDataByPkSk_0,
    {
        let mut out: Vec<FetchRequest> = Vec::new();
        match action {
            Action::Quit => self.should_quit = true,
            Action::Suspend => self.should_suspend = true,
            Action::Resume => self.should_suspend = false,
            Action::FilterTableData => self.mode = Mode::FilterData,
            Action::QueryTableData => self.mode = Mode::QueryData,
            Action::EnterInsertMode => self.mode = Mode::Insert,
            Action::ExitInsertMode => self.mode = Mode::View,
            Action::SelectTableMode => self.mode = Mode::SelectTable,
            Action::SelectDataMode
            | Action::ExitFilterTableData
            | Action::ExitQueryTableData
            | Action::SubmitFilterDataText => self.mode = Mode::SelectTableDataRow,
            Action::ViewTableDataRowDetail => self.mode = Mode::ViewTableDataRowDetail,
            Action::FetchTables => out.push(FetchRequest::Tables),
            Action::FetchTableData(name) => {
                self.collection = name.clone();
                self.last_evaluated_key = None;
                out.push(FetchRequest::GetApproximateItemCount(name.clone()));
                out.push(FetchRequest::TableData(name.clone()));
            },
            Action::FetchMoreTableData(name) => {
                let cursor = copy_cursor(&self.last_evaluated_key);
                out.push(FetchRequest::GetApproximateItemCount(name.clone()));
                out.push(FetchRequest::NextBatchTableData(name.clone(), cursor));
            },
            Action::GetTableDescription(name) => out.push(FetchRequest::DescribeTable(name.clone())),
            Action::GetTableQueryDataByPk(table, pk, value) => {
                self.collection = table.clone();
                out.push(FetchRequest::QueryTableByPk(table.clone(), pk.clone(), value.clone()));
            },
            Action::GetTableQueryDataByPkSk(table, pk, pk_value, sk, sk_value) => {
                self.collection = table.clone();
                out.push(
                    FetchRequest::QueryTableByPkSk(
                        table.clone(),
                        pk.clone(),
                        pk_value.clone(),
                        sk.clone(),
                        sk_value.clone(),
                    ),
                );
            },
            _ => {},
        }
        out
    }

    /// Turns a response of the fetch worker into actions. A page of a table
    /// other than the one shown is stale and dropped. A page of the shown
    /// table stores its cursor for the next request, and more pages are
    /// expected exactly when it carries one.
    pub fn handle_response(&mut self, response: FetchResponse) -> (out: Vec<Action>)
        ensures
            final(self).mode == old(self).mode,
            final(self).collection == old(self).collection,
            match response {
                FetchResponse::Tables(tables) => {
                    &&& out@.len() == 3
                    &&& out@[0] is TransmitTables && out@[0]->TransmitTables_0@ == tables@
                    &&& out@[1] is Render
                    &&& out@[2] is StopLoading
                    &&& final(self).last_evaluated_key == old(self).last_evaluated_key
                },
                FetchResponse::TableData(table, data, cursor) => if table@ == old(self).collection@ {
                    &&& out@.len() == 3
                    &&& out@[0] is TransmitTableData
                    &&& out@[0]->TransmitTableData_0@ == data@
                    &&& out@[0]->TransmitTableData_1 == cursor is Some
                    &&& out@[1] is SelectDataMode
                    &&& out@[2] is Render
                    &&& final(self).last_evaluated_key == cursor
                } else {
                    &&& out@.len() == 0
                    &&& final(self).last_evaluated_key == old(self).last_evaluated_key
                },
                FetchResponse::NextBatchTableData(table, data, cursor) => if table@
                    == old(self).collection@ {
                    &&& out@.len() == 2
                    &&& out@[0] is TransmitNextBatchTableData
                    &&& out@[0]->TransmitNextBatchTableData_0@ == data@
                    &&& out@[0]->TransmitNextBatchTableData_1 == cursor is Some
                    &&& out@[1] is Render
                    &&& final(self).last_evaluated_key == cursor
                } else {
                    &&& out@.len() == 0
                    &&& final(self).last_evaluated_key == old(self).last_evaluated_key
                },
                FetchResponse::ApproximateTableDataCount(n) => {
                    &&& out@ == seq![Action::ApproximateTableDataCount(n)]
                    &&& final(self).last_evaluated_key == old(self).last_evaluated_key
                },
                FetchResponse::TableDescription(pk, sk) => {
                    &&& out@ == seq![Action::TransmitTableDescription(pk, sk)]
                    &&& final(self).last_evaluated_key == old(self).last_evaluated_key
                },
            },
    {
        let mut out: Vec<Action> = Vec::new();
        match response {
            FetchResponse::Tables(tables) => {
                out.push(Action::TransmitTables(tables));
                out.push(Action::Render);
                out.push(Action::StopLoading);
            },
            FetchResponse::TableData(table, data, cursor) => {
                if table == self.collection {
                    let has_more = cursor.is_some();
                    self.last_evaluated_key = cursor;
                    out.push(Action::TransmitTableData(data, has_more));
                    out.push(Action::SelectDataMode);
                    out.push(Action::Render);
                }
            },
            FetchResponse::NextBatchTableData(table, data, cursor) => {
                if table == self.collection {
                    let has_more = cursor.is_some();
                    self.last_evaluated_key = cursor;
                    out.push(Action::TransmitNextBatchTableData(data, has_more));
                    out.push(Action::Render);
                }
            },
            FetchResponse::ApproximateTableDataCount(n) => {
                out.push(Action::ApproximateTableDataCount(n));
            },
            FetchResponse::TableDescription(pk, sk) => {
                out.push(Action::TransmitTableDescription(pk, sk));
            },
        }
        out
    }
}

/// The decisions of listing every table: pages of names are gathered in
/// order, each page's continuation token asks for the next one, and a failed
/// call yields no names at all.
pub struct TableListing {
    pub names: Vec<String>,
    pub done: bool,
}

impl TableListing {
    pub fn new() -> (r: TableListing)
        ensures
            r.names@.len() == 0,
            !r.done,
    {
        TableListing { names: Vec::new(), done: false }
    }

    /// Takes one page of names; returns the token to resume from, or `None`
    /// when the listing is complete.
    pub fn receive_page(&mut self, page: &Vec<String>, next: Option<String>) -> (r: Option<String>)
        requires
            !old(self).done,
        ensures
            final(self).names@ == old(self).names@ + page@,
            final(self).done == next is None,
            r == next,
    {
        let mut more = clone_strings(page);
        self.names.append(&mut more);
        self.done = next.is_none();
        next
    }

    /// The store could not be reached: the listing ends empty.
    pub fn receive_error(&mut self)
        ensures
            final(self).names@.len() == 0,
            final(self).done,
    {
        self.names = Vec::new();
        self.done = true;
    }
}

} // verus!
