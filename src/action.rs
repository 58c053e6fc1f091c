use vstd::prelude::*;

verus! {

/// Every discrete event that the explorer's components react to: input
/// mapped through the active mode's bindings, results of background fetches,
/// and follow-ups that one component emits for the others.
#[derive(Debug)]
pub enum Action {
    Tick,
    Render,
    Resize(u16, u16),
    Suspend,
    Resume,
    Quit,
    ClearScreen,
    Error(String),
    Help,
    UpdateStatusText(String),
    // Table selection.
    SelectTableMode,
    SelectTablePrev,
    SelectTableNext,
    SelectTableScrollUp,
    SelectTableScrollDown,
    SelectTableFirst,
    SelectTableLast,
    SelectTable,
    TransmitSelectedTable(String),
    FilteringTables,
    SelectingRegion,
    EnterInsertMode,
    ExitInsertMode,
    NewCharacter(char),
    DeleteCharacter,
    SubmitText,
    TransmitSubmittedText(String),
    FetchTables,
    TransmitTables(Vec<String>),
    StartLoading(String),
    StopLoading,
    // Records of the selected table.
    SelectDataMode,
    FetchTableData(String),
    FetchMoreTableData(String),
    TransmitTableData(Vec<String>, bool),
    TransmitNextBatchTableData(Vec<String>, bool),
    ApproximateTableDataCount(i64),
    GetTableDescription(String),
    TransmitTableDescription(Option<String>, Option<String>),
    SelectTableDataRowPrev,
    SelectTableDataRowNext,
    SelectTableDataRowScrollUp,
    SelectTableDataRowScrollDown,
    SelectTableDataRowFirst,
    SelectTableDataRowLast,
    SelectTableDataRow,
    SelectTableDataRowCopyToClipboard,
    FilterTableData,
    ExitFilterTableData,
    NewFilterDataCharacter(char),
    DeleteFilterDataCharacter,
    SubmitFilterDataText,
    ClearTableDataFilter,
    QueryTableData,
    ExitQueryTableData,
    NewQueryDataCharacter(char),
    DeleteQueryDataCharacter,
    ToggleQueryInputFocus,
    SubmitQueryDataText,
    GetTableQueryDataByPk(String, String, String),
    GetTableQueryDataByPkSk(String, String, String, String, String),
    // Detail view of one record.
    ViewTableDataRowDetail,
    TransmitSelectedTableDataRow(String),
    ViewTableDataRowScrollUp,
    ViewTableDataRowScrollDown,
    ViewTableDataRowScrollLeft,
    ViewTableDataRowScrollRight,
    ViewTableDataRowToggleNode,
    ViewTableDataRowNavigateUp,
    ViewTableDataRowNavigateDown,
    ExitViewTableDataRowMode,
    ViewTableDataRowCopyToClipboard,
}

/// Moves the selection forward: these may start a lazy load.
pub open spec fn is_advance(a: Action) -> bool {
    ||| a is SelectTableDataRowNext
    ||| a is SelectTableDataRowScrollDown
    ||| a is SelectTableDataRowLast
}

/// How many requests for another page of records `out` holds.
pub open spec fn more_data_requests(out: Seq<Action>) -> nat
    decreases out.len(),
{
    if out.len() == 0 {
        0
    } else {
        more_data_requests(out.drop_last()) + if out.last() is FetchMoreTableData {
            1nat
        } else {
            0nat
        }
    }
}

} // verus!
