use crate::action::{is_advance, more_data_requests, Action};
use crate::filter::{filter_records, records_view};
use crate::selection::{
    as_int, clamp_index, clamp_spec, next_spec, previous_spec, scroll_down_spec, scroll_up_spec,
    Selection,
};
use crate::strings::clone_strings;
use crate::text_input::TextField;
use vstd::prelude::*;

verus! {

/// How close to the end of the loaded records the selection must come before
/// the next page is requested.
pub const LOAD_MORE_WINDOW: usize = 5;

/// How many rows a scroll step moves.
pub const SCROLL_STEP: usize = 5;

pub open spec fn near_end(selected: Option<usize>, loaded: nat) -> bool {
    match selected {
        Some(i) => i + LOAD_MORE_WINDOW >= loaded,
        None => false,
    }
}

proof fn lemma_requests_push(out: Seq<Action>, a: Action)
    ensures
        more_data_requests(out.push(a)) == more_data_requests(out) + if a is FetchMoreTableData {
            1nat
        } else {
            0nat
        },
{
    assert(out.push(a).drop_last() =~= out);
}

proof fn lemma_requests_quiet(out: Seq<Action>, a: Action)
    requires
        !(a is FetchMoreTableData),
    ensures
        more_data_requests(out.push(a)) == more_data_requests(out),
{
    lemma_requests_push(out, a);
}

/// What one selection move may do to the in-flight flag and how many page
/// requests it may send: at most one, none while a fetch is in flight, and
/// one leaves a fetch in flight.
pub open spec fn advance_step(before: bool, after: bool, sent: nat) -> bool {
    &&& sent <= 1
    &&& before ==> after && sent == 0
    &&& sent == 1 ==> after
}

pub open spec fn total_sent(sent: Seq<nat>) -> nat
    decreases sent.len(),
{
    if sent.len() == 0 {
        0
    } else {
        total_sent(sent.drop_last()) + sent.last()
    }
}

/// Over any run of selection moves with no page arriving in between, at
/// most one page request is sent, and none at all if a fetch was already in
/// flight when the run began. `fetching[k]` is the flag before move `k` and
/// `sent[k]` the number of requests that move sent.
pub proof fn lemma_at_most_one_in_flight(fetching: Seq<bool>, sent: Seq<nat>)
    requires
        fetching.len() == sent.len() + 1,
        forall|k: int|
            0 <= k < sent.len() ==> #[trigger] advance_step(fetching[k], fetching[k + 1], sent[k]),
    ensures
        total_sent(sent) <= 1,
        fetching[0] ==> total_sent(sent) == 0 && fetching.last(),
        total_sent(sent) == 1 ==> fetching.last(),
    decreases sent.len(),
{
    if sent.len() > 0 {
        let n = sent.len() - 1;
        assert(advance_step(fetching[n], fetching[n + 1], sent[n]));
        lemma_at_most_one_in_flight(fetching.drop_last(), sent.drop_last());
        assert(fetching.drop_last().last() == fetching[n]);
    }
}

/// The records of a run of pages laid end to end.
pub open spec fn concat_pages(pages: Seq<Seq<String>>) -> Seq<String>
    decreases pages.len(),
{
    if pages.len() == 0 {
        Seq::empty()
    } else {
        concat_pages(pages.drop_last()) + pages.last()
    }
}

pub open spec fn total_len(pages: Seq<Seq<String>>) -> nat
    decreases pages.len(),
{
    if pages.len() == 0 {
        0
    } else {
        total_len(pages.drop_last()) + pages.last().len()
    }
}

/// After a run of continuation pages whose last one carries no cursor, the
/// buffer is the earlier buffer followed by every page in order (nothing
/// dropped, nothing repeated), its length is the sum of the page sizes, and
/// no more pages are expected. `buffers[k]` and `has_more[k]` hold before
/// page `k`, which carried `cursor_present[k]`.
pub proof fn lemma_continuation_pages(
    buffers: Seq<Seq<String>>,
    has_more: Seq<bool>,
    pages: Seq<Seq<String>>,
    cursor_present: Seq<bool>,
)
    requires
        buffers.len() == pages.len() + 1,
        has_more.len() == buffers.len(),
        cursor_present.len() == pages.len(),
        forall|k: int|
            0 <= k < pages.len() ==> #[trigger] buffers[k + 1] == buffers[k] + pages[k]
                && has_more[k + 1] == cursor_present[k],
        pages.len() > 0 ==> !cursor_present.last(),
    ensures
        buffers.last() == buffers[0] + concat_pages(pages),
        buffers.last().len() == buffers[0].len() + total_len(pages),
        pages.len() > 0 ==> !has_more.last(),
{
    lemma_concat_prefix(buffers, pages);
    if pages.len() > 0 {
        let n = pages.len() - 1;
        assert(buffers[n + 1] == buffers[n] + pages[n] && has_more[n + 1] == cursor_present[n]);
    }
}

proof fn lemma_concat_prefix(buffers: Seq<Seq<String>>, pages: Seq<Seq<String>>)
    requires
        buffers.len() == pages.len() + 1,
        forall|k: int|
            0 <= k < pages.len() ==> #[trigger] buffers[k + 1] == buffers[k] + pages[k],
    ensures
        buffers.last() == buffers[0] + concat_pages(pages),
        buffers.last().len() == buffers[0].len() + total_len(pages),
    decreases pages.len(),
{
    if pages.len() > 0 {
        let n = pages.len() - 1;
        assert(buffers[n + 1] == buffers[n] + pages[n]);
        lemma_concat_prefix(buffers.drop_last(), pages.drop_last());
        assert(buffers[0] + concat_pages(pages) =~= buffers[0] + concat_pages(pages.drop_last())
            + pages[n]);
    }
}

pub enum ViewMode {
    View,
    Filtering,
    Querying,
}

pub enum QueryFocus {
    PartitionKey,
    SortKey,
}

/// The records of the selected table: the loaded buffer, its filtered view,
/// the selection in that view, and the lazy-load flags.
pub struct DataBox {
    pub active: bool,
    pub title: String,
    pub records: Vec<String>,
    pub filtered_records: Vec<String>,
    pub has_more: bool,
    pub fetching: bool,
    pub selection: Selection,
    pub selected_row: String,
    pub collection_name: String,
    pub aprox_count: i64,
    pub mode: ViewMode,
    pub filter_input: TextField,
    pub partition_key_value: TextField,
    pub sort_key_value: TextField,
    pub partition_key: Option<String>,
    pub sort_key: Option<String>,
    pub query_focus: QueryFocus,
}

impl DataBox {
    /// The filtered view matches the buffer and the filter text, and the
    /// selection lies inside the view.
    pub open spec fn wf(&self) -> bool {
        &&& self.filter_input.wf()
        &&& self.partition_key_value.wf()
        &&& self.sort_key_value.wf()
        &&& self.filtered_records@ == records_view(self.records@, self.filter_input.text())
        &&& self.selection.within(self.filtered_records@.len())
    }

    /// A query can be sent: the partition key value is filled in and the
    /// partition key's name is known.
    pub open spec fn query_ready(&self) -> bool {
        self.partition_key_value.text().len() > 0 && self.partition_key is Some
    }

    /// The query uses the sort key as well.
    pub open spec fn query_by_both(&self) -> bool {
        self.query_ready() && self.sort_key_value.text().len() > 0 && self.sort_key is Some
    }

    /// `out` is what submitting the query sends.
    pub open spec fn query_sent(&self, out: Seq<Action>) -> bool {
        &&& (self.query_ready() ==> {
                &&& out.len() == 2
                &&& out[0] is StartLoading
                &&& out[0]->StartLoading_0@ == "Querying Data"@
                &&& self.query_by_both() ==> {
                    &&& out[1] is GetTableQueryDataByPkSk
                    &&& out[1]->GetTableQueryDataByPkSk_0@ == self.collection_name@
                    &&& out[1]->GetTableQueryDataByPkSk_1@ == self.partition_key->Some_0@
                    &&& out[1]->GetTableQueryDataByPkSk_2@ == self.partition_key_value.text()
                    &&& out[1]->GetTableQueryDataByPkSk_3@ == self.sort_key->Some_0@
                    &&& out[1]->GetTableQueryDataByPkSk_4@ == self.sort_key_value.text()
                }
                &&& !self.query_by_both() ==> {
                    &&& out[1] is GetTableQueryDataByPk
                    &&& out[1]->GetTableQueryDataByPk_0@ == self.collection_name@
                    &&& out[1]->GetTableQueryDataByPk_1@ == self.partition_key->Some_0@
                    &&& out[1]->GetTableQueryDataByPk_2@ == self.partition_key_value.text()
                }
            })
        &&& (!self.query_ready() ==> out.len() == 0)
    }

    /// The pagination state that an action leaves untouched.
    pub open spec fn same_paging(&self, other: &DataBox) -> bool {
        &&& self.records@ == other.records@
        &&& self.has_more == other.has_more
        &&& self.fetching == other.fetching
        &&& self.collection_name@ == other.collection_name@
    }

    pub fn new() -> (r: DataBox)
        ensures
            r.wf(),
            r.title@ == "Data"@,
            r.records@.len() == 0,
            !r.has_more,
            !r.fetching,
            r.selection.selected is None,
    {
        let r = DataBox {
            active: false,
            title: String::from_str("Data"),
            records: Vec::new(),
            filtered_records: Vec::new(),
            has_more: false,
            fetching: false,
            selection: Selection::new(),
            selected_row: String::new(),
            collection_name: String::new(),
            aprox_count: 0,
            mode: ViewMode::View,
            filter_input: TextField::new(),
            partition_key_value: TextField::new(),
            sort_key_value: TextField::new(),
            partition_key: None,
            sort_key: None,
            query_focus: QueryFocus::PartitionKey,
        };
        assert(r.filtered_records@ == records_view(r.records@, r.filter_input.text()));
        r
    }

    pub fn set_title(&mut self, new_title: &str)
        ensures
            final(self).title@ == new_title@,
            *final(self) == (DataBox { title: final(self).title, ..*old(self) }),
    {
        self.title = String::from_str(new_title);
    }

    /// Recomputes the filtered view from the buffer and the filter text, and
    /// pulls the selection back inside it.
    pub fn apply_filter(&mut self)
        requires
            old(self).filter_input.wf(),
            old(self).partition_key_value.wf(),
            old(self).sort_key_value.wf(),
        ensures
            final(self).wf(),
            final(self).filtered_records@ == records_view(
                old(self).records@,
                old(self).filter_input.text(),
            ),
            old(self).filter_input.text().len() == 0 ==> final(self).filtered_records@
                == old(self).records@,
            final(self).selection == old(self).selection.moved_to(
                clamp_spec(old(self).selection.selected, final(self).filtered_records@.len()),
            ),
            *final(self) == (DataBox {
                filtered_records: final(self).filtered_records,
                selection: final(self).selection,
                ..*old(self)
            }),
    {
        let text = self.filter_input.to_text();
        self.filtered_records = filter_records(&self.records, text.as_str());
        self.selection.clamp(self.filtered_records.len());
    }

    pub fn select_first(&mut self)
        requires
            old(self).wf(),
        ensures
            final(self).wf(),
            final(self).selection == old(self).selection.moved_to(
                clamp_index(0, old(self).filtered_records@.len()),
            ),
            final(self).same_paging(old(self)),
    {
        self.selection.select_first(self.filtered_records.len());
    }

    /// Starts loading the next page when the selection has come within the
    /// window of the end of the loaded records, more pages exist and none is
    /// being fetched already (or unconditionally on the window when `to_end`).
    fn maybe_load_more(&mut self, to_end: bool, out: &mut Vec<Action>)
        requires
            old(self).wf(),
        ensures
            final(self).wf(),
            final(self).selection == old(self).selection,
            final(self).records == old(self).records,
            final(self).filtered_records == old(self).filtered_records,
            final(self).has_more == old(self).has_more,
            ({
                let go = old(self).has_more && !old(self).fetching && (to_end || near_end(
                    old(self).selection.selected,
                    old(self).records@.len(),
                ));
                &&& final(self).fetching == (old(self).fetching || go)
                &&& go ==> final(out)@ == old(out)@ + seq![
                    Action::StartLoading(final(out)@[old(out)@.len() as int]->StartLoading_0),
                    Action::FetchMoreTableData(old(self).collection_name),
                ]
                &&& go ==> final(out)@[old(out)@.len() as int]->StartLoading_0@
                    == "Loading More Table Data"@
                &&& !go ==> final(out)@ == old(out)@
            }),
    {
        let near = match self.selection.selected {
            Some(i) => i >= self.records.len() || self.records.len() - i <= LOAD_MORE_WINDOW,
            None => false,
        };
        if self.has_more && !self.fetching && (to_end || near) {
            self.fetching = true;
            out.push(Action::StartLoading(String::from_str("Loading More Table Data")));
            out.push(Action::FetchMoreTableData(self.collection_name.clone()));
        }
    }

    /// A fresh table was selected: the buffer, its view and the flags start over.
    pub fn start_table(&mut self)
        requires
            old(self).wf(),
        ensures
            final(self).wf(),
            final(self).records@.len() == 0,
            final(self).filtered_records@.len() == 0,
            final(self).has_more,
            !final(self).fetching,
            final(self).selection.selected is None,
            final(self).filter_input == old(self).filter_input,
    {
        self.records = Vec::new();
        self.has_more = true;
        self.fetching = false;
        self.apply_filter();
    }

    /// The first page of a table arrived: it replaces the buffer.
    pub fn receive_first_page(&mut self, data: &Vec<String>, has_more: bool)
        requires
            old(self).wf(),
        ensures
            final(self).wf(),
            final(self).records@ == data@,
            final(self).has_more == has_more,
            final(self).fetching == old(self).fetching,
            final(self).filtered_records@ == records_view(data@, old(self).filter_input.text()),
            as_int(final(self).selection.selected) == clamp_index(
                0,
                final(self).filtered_records@.len(),
            ),
            final(self).filter_input == old(self).filter_input,
    {
        self.records = clone_strings(data);
        self.has_more = has_more;
        self.selection.select_first(1);
        self.apply_filter();
    }

    /// A continuation page arrived: it is appended to the buffer, the fetch
    /// is over, and the view is recomputed.
    pub fn receive_next_page(&mut self, data: &Vec<String>, has_more: bool)
        requires
            old(self).wf(),
        ensures
            final(self).wf(),
            final(self).records@ == old(self).records@ + data@,
            final(self).has_more == has_more,
            !final(self).fetching,
            final(self).filtered_records@ == records_view(
                final(self).records@,
                old(self).filter_input.text(),
            ),
            final(self).selection == old(self).selection.moved_to(
                clamp_spec(old(self).selection.selected, final(self).filtered_records@.len()),
            ),
            final(self).filter_input == old(self).filter_input,
    {
        let mut more = clone_strings(data);
        self.records.append(&mut more);
        self.has_more = has_more;
        self.fetching = false;
        self.apply_filter();
    }
}

impl DataBox {
    /// The record at the selected row of the filtered view, if any.
    pub fn selected_record(&self) -> (r: Option<String>)
        requires
            self.wf(),
        ensures
            match self.selection.selected {
                Some(i) => r == Some(self.filtered_records@[i as int]),
                None => r is None,
            },
    {
        match self.selection.selected {
            Some(i) => Some(self.filtered_records[i].clone()),
            None => None,
        }
    }

    /// Switches between the two key inputs, when the table has both keys.
    pub fn toggle_query_input_focus(&mut self)
        ensures
            (old(self).partition_key is Some && old(self).sort_key is Some) ==> (
            final(self).query_focus is SortKey <==> old(self).query_focus is PartitionKey),
            !(old(self).partition_key is Some && old(self).sort_key is Some)
                ==> final(self).query_focus == old(self).query_focus,
            *final(self) == (DataBox { query_focus: final(self).query_focus, ..*old(self) }),
    {
        if self.sort_key.is_some() && self.partition_key.is_some() {
            self.query_focus = match self.query_focus {
                QueryFocus::SortKey => QueryFocus::PartitionKey,
                QueryFocus::PartitionKey => QueryFocus::SortKey,
            };
        }
    }

    /// The key query that the inputs describe, after a loading notice: by
    /// both keys when both values are filled in and both key names are known,
    /// else by the partition key when its value is filled in and its name is
    /// known; nothing otherwise.
    pub fn submit_query(&self) -> (out: Vec<Action>)
        ensures
            more_data_requests(out@) == 0,
            self.query_sent(out@),
    {
        let mut out: Vec<Action> = Vec::new();
        if !self.partition_key_value.is_empty() {
            if let Some(pk) = &self.partition_key {
                let loading = Action::StartLoading(String::from_str("Querying Data"));
                proof {
                    lemma_requests_quiet(out@, loading);
                }
                out.push(loading);
                let pk_value = self.partition_key_value.to_text();
                if !self.sort_key_value.is_empty() && self.sort_key.is_some() {
                    let sk = self.sort_key.as_ref().unwrap();
                    let q = Action::GetTableQueryDataByPkSk(
                        self.collection_name.clone(),
                        pk.clone(),
                        pk_value,
                        sk.clone(),
                        self.sort_key_value.to_text(),
                    );
                    proof {
                        lemma_requests_quiet(out@, q);
                    }
                    out.push(q);
                } else {
                    let q = Action::GetTableQueryDataByPk(
                        self.collection_name.clone(),
                        pk.clone(),
                        pk_value,
                    );
                    proof {
                        lemma_requests_quiet(out@, q);
                    }
                    out.push(q);
                }
            }
        }
        out
    }

    /// Applies one action and returns the actions it gives rise to.
    pub fn update(&mut self, action: &Action) -> (out: Vec<Action>)
        requires
            old(self).wf(),
            old(self).filter_input.text().len() < usize::MAX,
            old(self).partition_key_value.text().len() < usize::MAX,
            old(self).sort_key_value.text().len() < usize::MAX,
        ensures
            final(self).wf(),
            is_advance(*action) ==> advance_step(
                old(self).fetching,
                final(self).fetching,
                more_data_requests(out@),
            ),
            is_advance(*action) ==> {
                let loads = !old(self).fetching && final(self).fetching;
                &&& loads ==> out@.len() == 2 && out@[0] is StartLoading
                    && out@[0]->StartLoading_0@ == "Loading More Table Data"@
                    && out@[1] == Action::FetchMoreTableData(old(self).collection_name)
                &&& !loads ==> out@.len() == 0
                &&& final(self).records == old(self).records
                &&& final(self).has_more == old(self).has_more
                &&& more_data_requests(out@) <= 1
                &&& old(self).fetching ==> final(self).fetching && more_data_requests(out@) == 0
                &&& more_data_requests(out@) == 1 ==> !old(self).fetching && final(self).fetching
            },
            action is SelectTableDataRowNext ==> {
                let sel = next_spec(old(self).selection.selected, old(self).filtered_records@.len());
                &&& final(self).selection == old(self).selection.moved_to(sel)
                &&& more_data_requests(out@) == 1 <==> (old(self).has_more && !old(self).fetching
                    && near_end(final(self).selection.selected, old(self).records@.len()))
            },
            action is SelectTableDataRowScrollDown ==> {
                let sel = scroll_down_spec(
                    old(self).selection.selected,
                    SCROLL_STEP as nat,
                    old(self).filtered_records@.len(),
                );
                &&& final(self).selection == old(self).selection.moved_to(sel)
                &&& more_data_requests(out@) == 1 <==> (old(self).has_more && !old(self).fetching
                    && near_end(final(self).selection.selected, old(self).records@.len()))
            },
            action is SelectTableDataRowLast ==> {
                &&& final(self).selection == old(self).selection.moved_to(
                    clamp_index(
                        old(self).filtered_records@.len() - 1,
                        old(self).filtered_records@.len(),
                    ),
                )
                &&& more_data_requests(out@) == 1 <==> (old(self).has_more && !old(self).fetching)
            },
            action is SelectTableDataRowPrev ==> final(self).selection == old(self).selection.moved_to(
                previous_spec(old(self).selection.selected, old(self).filtered_records@.len()),
            ),
            action is SelectTableDataRowScrollUp ==> final(self).selection
                == old(self).selection.moved_to(
                scroll_up_spec(
                    old(self).selection.selected,
                    SCROLL_STEP as nat,
                    old(self).filtered_records@.len(),
                ),
            ),
            action is SelectTableDataRowFirst ==> final(self).selection
                == old(self).selection.moved_to(clamp_index(0, old(self).filtered_records@.len())),
            // filter and query inputs; the filtered view follows from `wf`
            action is NewFilterDataCharacter && old(self).active ==> final(self).filter_input.text()
                == old(self).filter_input.text().insert(
                old(self).filter_input.caret_at() as int,
                action->NewFilterDataCharacter_0,
            ),
            action is DeleteFilterDataCharacter && old(self).active && old(
                self,
            ).filter_input.caret_at() > 0 ==> final(self).filter_input.text() == old(
                self,
            ).filter_input.text().remove(old(self).filter_input.caret_at() - 1),
            (action is NewFilterDataCharacter || action is DeleteFilterDataCharacter) && !old(
                self,
            ).active ==> final(self).filter_input == old(self).filter_input
                && final(self).filtered_records == old(self).filtered_records,
            action is ExitFilterTableData ==> final(self).filter_input.text().len() == 0
                && final(self).filter_input.caret_at() == 0
                && final(self).filtered_records@ == old(self).records@,
            (action is ClearTableDataFilter || action is ExitQueryTableData) ==> {
                &&& final(self).filter_input.text().len() == 0
                &&& final(self).partition_key_value.text().len() == 0
                &&& final(self).sort_key_value.text().len() == 0
                &&& final(self).filter_input.caret_at() == 0
                &&& final(self).partition_key_value.caret_at() == 0
                &&& final(self).sort_key_value.caret_at() == 0
                &&& final(self).filtered_records@ == old(self).records@
            },
            action is NewQueryDataCharacter && old(self).query_focus is PartitionKey
                ==> final(self).partition_key_value.text()
                == old(self).partition_key_value.text().insert(
                old(self).partition_key_value.caret_at() as int,
                action->NewQueryDataCharacter_0,
            ),
            action is NewQueryDataCharacter && old(self).query_focus is SortKey
                ==> final(self).sort_key_value.text() == old(self).sort_key_value.text().insert(
                old(self).sort_key_value.caret_at() as int,
                action->NewQueryDataCharacter_0,
            ),
            action is SubmitQueryDataText ==> {
                &&& final(self).mode is View
                &&& old(self).query_sent(out@)
            },
            // the chosen table and row
            action is TransmitSelectedTable ==> {
                &&& final(self).title@ == action->TransmitSelectedTable_0@
                &&& final(self).collection_name@ == action->TransmitSelectedTable_0@
                &&& out@.len() == 1
                &&& out@[0] is GetTableDescription
                &&& out@[0]->GetTableDescription_0@ == action->TransmitSelectedTable_0@
            },
            action is SelectTableDataRow ==> match old(self).selection.selected {
                Some(i) => {
                    let rec = old(self).filtered_records@[i as int];
                    &&& final(self).selected_row@ == rec@
                    &&& rec@.len() > 0 ==> out@.len() == 2 && out@[0] is ViewTableDataRowDetail
                        && out@[1] is TransmitSelectedTableDataRow
                        && out@[1]->TransmitSelectedTableDataRow_0@ == rec@
                    &&& rec@.len() == 0 ==> out@.len() == 0
                },
                None => out@.len() == 0,
            },
            action is ApproximateTableDataCount ==> final(self).aprox_count
                == action->ApproximateTableDataCount_0,
            action is SelectDataMode ==> final(self).active,
            // pages
            action is FetchTableData ==> {
                &&& out@.len() == 0
                &&& final(self).records@.len() == 0
                &&& final(self).has_more
                &&& !final(self).fetching
                &&& more_data_requests(out@) == 0
            },
            action is TransmitTableData ==> {
                &&& out@ == seq![Action::StopLoading]
                &&& final(self).records@ == action->TransmitTableData_0@
                &&& final(self).has_more == action->TransmitTableData_1
                &&& final(self).fetching == old(self).fetching
                &&& more_data_requests(out@) == 0
            },
            action is TransmitNextBatchTableData ==> {
                &&& out@ == seq![Action::StopLoading]
                &&& final(self).records@ == old(self).records@ + action->TransmitNextBatchTableData_0@
                &&& final(self).has_more == action->TransmitNextBatchTableData_1
                &&& !final(self).fetching
                &&& more_data_requests(out@) == 0
            },
            !(is_advance(*action) || action is FetchTableData || action is TransmitTableData
                || action is TransmitNextBatchTableData) ==> {
                &&& final(self).records == old(self).records
                &&& final(self).has_more == old(self).has_more
                &&& final(self).fetching == old(self).fetching
                &&& more_data_requests(out@) == 0
            },
    {
        let mut out: Vec<Action> = Vec::new();
        match action {
            Action::SelectDataMode => self.active = true,
            Action::SelectingRegion
            | Action::FilteringTables
            | Action::SelectTableMode
            | Action::ViewTableDataRowDetail => self.active = false,
            Action::TransmitSelectedTable(table) => {
                self.set_title(table.as_str());
                self.collection_name = table.clone();
                let a = Action::GetTableDescription(table.clone());
                proof {
                    lemma_requests_quiet(out@, a);
                }
                out.push(a);
            },
            Action::TransmitTableData(data, has_more) => {
                self.receive_first_page(data, *has_more);
                let a = Action::StopLoading;
                proof {
                    lemma_requests_quiet(out@, a);
                }
                out.push(a);
            },
            Action::TransmitNextBatchTableData(data, has_more) => {
                self.receive_next_page(data, *has_more);
                let a = Action::StopLoading;
                proof {
                    lemma_requests_quiet(out@, a);
                }
                out.push(a);
            },
            Action::FetchTableData(_) => self.start_table(),
            Action::SelectTableDataRowPrev => {
                self.selection.select_previous(self.filtered_records.len());
            },
            Action::SelectTableDataRowNext => {
                self.selection.select_next(self.filtered_records.len());
                self.maybe_load_more(false, &mut out);
                proof {
                    if out@.len() == 2 {
                        lemma_requests_push(seq![out@[0]], out@[1]);
                        lemma_requests_push(Seq::empty(), out@[0]);
                        assert(seq![out@[0]] =~= Seq::<Action>::empty().push(out@[0]));
                        assert(out@ =~= seq![out@[0]].push(out@[1]));
                    }
                }
            },
            Action::SelectTableDataRowScrollUp => {
                self.selection.scroll_up(SCROLL_STEP, self.filtered_records.len());
            },
            Action::SelectTableDataRowScrollDown => {
                self.selection.scroll_down(SCROLL_STEP, self.filtered_records.len());
                self.maybe_load_more(false, &mut out);
                proof {
                    if out@.len() == 2 {
                        lemma_requests_push(seq![out@[0]], out@[1]);
                        lemma_requests_push(Seq::empty(), out@[0]);
                        assert(seq![out@[0]] =~= Seq::<Action>::empty().push(out@[0]));
                        assert(out@ =~= seq![out@[0]].push(out@[1]));
                    }
                }
            },
            Action::SelectTableDataRowFirst => {
                self.selection.select_first(self.filtered_records.len());
            },
            Action::SelectTableDataRowLast => {
                self.selection.select_last(self.filtered_records.len());
                self.maybe_load_more(true, &mut out);
                proof {
                    if out@.len() == 2 {
                        lemma_requests_push(seq![out@[0]], out@[1]);
                        lemma_requests_push(Seq::empty(), out@[0]);
                        assert(seq![out@[0]] =~= Seq::<Action>::empty().push(out@[0]));
                        assert(out@ =~= seq![out@[0]].push(out@[1]));
                    }
                }
            },
            Action::SelectTableDataRow => {
                if let Some(row) = self.selected_record() {
                    self.selected_row = row;
                    if self.selected_row.as_str().unicode_len() != 0 {
                        let a = Action::ViewTableDataRowDetail;
                        proof {
                            lemma_requests_quiet(out@, a);
                        }
                        out.push(a);
                        let b = Action::TransmitSelectedTableDataRow(self.selected_row.clone());
                        proof {
                            lemma_requests_quiet(out@, b);
                        }
                        out.push(b);
                    }
                }
            },
            Action::ApproximateTableDataCount(count) => self.aprox_count = *count,
            Action::FilterTableData => self.mode = ViewMode::Filtering,
            Action::ExitFilterTableData => {
                self.mode = ViewMode::View;
                self.filter_input.clear();
                self.apply_filter();
            },
            Action::ExitQueryTableData | Action::ClearTableDataFilter => {
                self.filter_input.clear();
                self.partition_key_value.clear();
                self.sort_key_value.clear();
                if let Action::ExitQueryTableData = action {
                    self.query_focus = QueryFocus::PartitionKey;
                    self.mode = ViewMode::View;
                }
                self.apply_filter();
            },
            Action::NewFilterDataCharacter(c) => {
                if self.active {
                    self.filter_input.enter_char(*c);
                    self.selection.select_first(self.filtered_records.len());
                    self.apply_filter();
                }
            },
            Action::DeleteFilterDataCharacter => {
                if self.active {
                    self.filter_input.delete_char();
                    self.apply_filter();
                }
            },
            Action::SubmitFilterDataText => self.mode = ViewMode::View,
            Action::QueryTableData => self.mode = ViewMode::Querying,
            Action::TransmitTableDescription(pk, sk) => {
                self.partition_key = pk.clone();
                self.sort_key = sk.clone();
            },
            Action::NewQueryDataCharacter(c) => {
                match self.query_focus {
                    QueryFocus::PartitionKey => self.partition_key_value.enter_char(*c),
                    QueryFocus::SortKey => self.sort_key_value.enter_char(*c),
                }
            },
            Action::DeleteQueryDataCharacter => {
                if self.active {
                    match self.query_focus {
                        QueryFocus::PartitionKey => self.partition_key_value.delete_char(),
                        QueryFocus::SortKey => self.sort_key_value.delete_char(),
                    }
                }
            },
            Action::ToggleQueryInputFocus => self.toggle_query_input_focus(),
            Action::SubmitQueryDataText => {
                out = self.submit_query();
                self.mode = ViewMode::View;
            },
            _ => {},
        }
        out
    }
}

} // verus!
