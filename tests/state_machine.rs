use dynamo_browser::action::Action;
use dynamo_browser::data_box::DataBox;
use dynamo_browser::detail_box::DataDetailBox;
use dynamo_browser::dispatch::{text_entry_action, Dispatcher, Mode, TableListing};
use dynamo_browser::fetch::{Cursor, FetchRequest, FetchResponse, KeyPart, KeyValue};
use dynamo_browser::filter_input::FilterInput;
use dynamo_browser::loading::{AWSRegionBox, LoadingBox};
use dynamo_browser::message::Message;
use dynamo_browser::selection::Selection;
use dynamo_browser::status::StatusBox;
use dynamo_browser::text_input::TextField;

fn page(start: usize, n: usize) -> Vec<String> {
    (start..start + n).map(|i| format!("{{\"id\":{}}}", i)).collect()
}

fn cursor(id: &str) -> Option<Cursor> {
    Some(Cursor { parts: vec![KeyPart { name: "id".to_string(), value: KeyValue::S(id.to_string()) }] })
}

fn cursor_id(c: &Option<Cursor>) -> Option<String> {
    match c {
        Some(c) => match &c.parts[0].value {
            KeyValue::S(s) => Some(s.clone()),
            _ => None,
        },
        None => None,
    }
}

fn count_more_requests(out: &[Action]) -> usize {
    out.iter().filter(|a| matches!(a, Action::FetchMoreTableData(_))).count()
}

#[test]
fn scenario_b_lazy_load_one_request() {
    let mut dispatcher: Dispatcher = Dispatcher::new();
    let mut data = DataBox::new();
    data.update(&Action::SelectDataMode);
    data.update(&Action::TransmitSelectedTable("people".to_string()));
    data.update(&Action::FetchTableData("people".to_string()));
    let reqs = dispatcher.handle_action(&Action::FetchTableData("people".to_string()));
    assert!(matches!(&reqs[1], FetchRequest::TableData(t) if t == "people"));
    let actions = dispatcher.handle_response(FetchResponse::TableData(
        "people".to_string(),
        page(0, 100),
        cursor("K1"),
    ));
    assert!(matches!(&actions[0], Action::TransmitTableData(d, true) if d.len() == 100));
    for a in &actions {
        data.update(a);
    }
    assert_eq!(data.records.len(), 100);
    assert!(data.has_more);
    assert_eq!(data.selection.selected, Some(0));

    let mut sent: Vec<Action> = Vec::new();
    while data.selection.selected != Some(96) {
        let out = data.update(&Action::SelectTableDataRowNext);
        sent.extend(out);
    }
    assert_eq!(count_more_requests(&sent), 1);
    assert!(data.fetching);
    let more = sent.iter().find(|a| matches!(a, Action::FetchMoreTableData(_))).unwrap();
    let reqs = dispatcher.handle_action(more);
    assert_eq!(reqs.len(), 2);
    match &reqs[1] {
        FetchRequest::NextBatchTableData(t, c) => {
            assert_eq!(t, "people");
            assert_eq!(cursor_id(c), Some("K1".to_string()));
        }
        _ => panic!("expected a continuation request with the stored cursor"),
    }
    // moving further while the fetch is in flight sends nothing
    let out = data.update(&Action::SelectTableDataRowLast);
    assert_eq!(count_more_requests(&out), 0);

    let actions = dispatcher.handle_response(FetchResponse::NextBatchTableData(
        "people".to_string(),
        page(100, 50),
        None,
    ));
    for a in &actions {
        data.update(a);
    }
    assert_eq!(data.records.len(), 150);
    assert!(!data.has_more);
    assert!(!data.fetching);
    assert_eq!(data.records, page(0, 150));
}

#[test]
fn last_triggers_load_when_more_pages() {
    let mut data = DataBox::new();
    data.update(&Action::TransmitSelectedTable("t".to_string()));
    data.update(&Action::TransmitTableData(page(0, 20), true));
    let out = data.update(&Action::SelectTableDataRowLast);
    assert_eq!(count_more_requests(&out), 1);
    assert_eq!(data.selection.selected, Some(19));
    let out = data.update(&Action::SelectTableDataRowLast);
    assert_eq!(count_more_requests(&out), 0);
}

#[test]
fn no_load_far_from_end_or_without_more() {
    let mut data = DataBox::new();
    data.update(&Action::TransmitTableData(page(0, 20), true));
    let out = data.update(&Action::SelectTableDataRowNext);
    assert_eq!(count_more_requests(&out), 0);
    let mut data = DataBox::new();
    data.update(&Action::TransmitTableData(page(0, 3), false));
    let out = data.update(&Action::SelectTableDataRowLast);
    assert_eq!(count_more_requests(&out), 0);
}

#[test]
fn data_filter_edits_and_clamps_selection() {
    let mut data = DataBox::new();
    data.update(&Action::SelectDataMode);
    data.update(&Action::TransmitTableData(
        vec!["{\"n\":\"alpha\"}".to_string(), "{\"n\":\"beta\"}".to_string()],
        false,
    ));
    data.update(&Action::SelectTableDataRowLast);
    assert_eq!(data.selection.selected, Some(1));
    data.update(&Action::NewFilterDataCharacter('a'));
    data.update(&Action::NewFilterDataCharacter('l'));
    assert_eq!(data.filtered_records, vec!["{\"n\":\"alpha\"}".to_string()]);
    assert_eq!(data.selection.selected, Some(0));
    data.update(&Action::NewFilterDataCharacter('q'));
    assert!(data.filtered_records.is_empty());
    assert_eq!(data.selection.selected, None);
    data.update(&Action::ExitFilterTableData);
    assert_eq!(data.filtered_records.len(), 2);
}

#[test]
fn data_select_row_sends_filtered_record() {
    let mut data = DataBox::new();
    data.update(&Action::SelectDataMode);
    data.update(&Action::TransmitTableData(
        vec!["{\"n\":\"alpha\"}".to_string(), "{\"n\":\"beta\"}".to_string()],
        false,
    ));
    data.update(&Action::NewFilterDataCharacter('b'));
    data.update(&Action::NewFilterDataCharacter('e'));
    let out = data.update(&Action::SelectTableDataRow);
    assert_eq!(out.len(), 2);
    assert!(matches!(out[0], Action::ViewTableDataRowDetail));
    assert!(matches!(&out[1], Action::TransmitSelectedTableDataRow(r) if r == "{\"n\":\"beta\"}"));
}

#[test]
fn data_query_submission() {
    let mut data = DataBox::new();
    data.update(&Action::SelectDataMode);
    data.update(&Action::TransmitSelectedTable("t".to_string()));
    data.update(&Action::TransmitTableDescription(Some("pk".to_string()), Some("sk".to_string())));
    data.update(&Action::QueryTableData);
    data.update(&Action::NewQueryDataCharacter('1'));
    let out = data.update(&Action::SubmitQueryDataText);
    assert!(matches!(&out[1], Action::GetTableQueryDataByPk(t, k, v) if t == "t" && k == "pk" && v == "1"));
    data.update(&Action::ToggleQueryInputFocus);
    data.update(&Action::NewQueryDataCharacter('2'));
    let out = data.update(&Action::SubmitQueryDataText);
    assert!(matches!(&out[1], Action::GetTableQueryDataByPkSk(_, _, a, _, b) if a == "1" && b == "2"));
}

#[test]
fn scenario_c_tree_rows_and_round_trip() {
    let mut detail = DataDetailBox::new();
    detail.set_record("{\"a\":{\"b\":1,\"c\":2}}");
    assert_eq!(detail.tree.len(), 2);
    assert_eq!(detail.tree[1].key, "a");
    assert!(!detail.tree[1].expanded);
    let path = vec!["a".to_string()];
    detail.toggle_node(&path);
    assert_eq!(detail.tree.len(), 4);
    assert_eq!(detail.tree[2].key, "b");
    assert_eq!(detail.tree[2].depth, 2);
    assert_eq!(detail.tree[3].path, vec!["a".to_string(), "c".to_string()]);
    detail.toggle_node(&path);
    assert_eq!(detail.tree.len(), 2);
}

#[test]
fn tree_array_paths_use_decimal_indices() {
    let mut detail = DataDetailBox::new();
    detail.set_record("{\"xs\":[[1],2,3,4,5,6,7,8,9,10,11]}");
    detail.toggle_node(&vec!["xs".to_string()]);
    assert_eq!(detail.tree.len(), 13);
    assert_eq!(detail.tree[2].key, "0");
    assert!(detail.tree[2].container);
    assert_eq!(detail.tree[12].key, "10");
    assert_eq!(detail.tree[12].path, vec!["xs".to_string(), "10".to_string()]);
}

#[test]
fn tree_selection_clamped_and_invalid_record_empty() {
    let mut detail = DataDetailBox::new();
    detail.set_record("{\"a\":{\"b\":1,\"c\":2}}");
    detail.update(&Action::ViewTableDataRowNavigateDown);
    let out = detail.update(&Action::ViewTableDataRowToggleNode);
    assert_eq!(out.len(), 1);
    assert_eq!(detail.tree.len(), 4);
    detail.update(&Action::ViewTableDataRowScrollDown);
    assert_eq!(detail.selected_index, 3);
    detail.update(&Action::ViewTableDataRowToggleNode);
    detail.set_record("not json");
    assert_eq!(detail.tree.len(), 0);
    assert_eq!(detail.selected_index, 0);
    let out = detail.update(&Action::ExitViewTableDataRowMode);
    assert!(matches!(out[0], Action::SelectDataMode));
}

#[test]
fn selection_moves_clamp_to_length() {
    let mut s = Selection::new();
    s.select_next(0);
    assert_eq!(s.selected, None);
    s.select_next(3);
    assert_eq!(s.selected, Some(0));
    s.scroll_down(5, 3);
    assert_eq!(s.selected, Some(2));
    assert_eq!(s.scroll_pos, 2);
    s.select_next(3);
    assert_eq!(s.selected, Some(2));
    s.scroll_up(5, 3);
    assert_eq!(s.selected, Some(0));
    s.select_previous(3);
    assert_eq!(s.selected, Some(0));
    s.select_none();
    s.select_previous(3);
    assert_eq!(s.selected, Some(2));
    s.clamp(1);
    assert_eq!(s.selected, Some(0));
    s.clamp(0);
    assert_eq!(s.selected, None);
}

#[test]
fn text_field_edits_by_character() {
    let mut t = TextField::new();
    t.enter_char('a');
    t.enter_char('é');
    t.enter_char('c');
    assert_eq!(t.to_text(), "aéc");
    t.move_left();
    t.delete_char();
    assert_eq!(t.to_text(), "ac");
    assert_eq!(t.caret(), 1);
    t.move_left();
    t.move_left();
    t.delete_char();
    assert_eq!(t.to_text(), "ac");
    t.move_right();
    t.move_right();
    t.move_right();
    assert_eq!(t.caret(), 2);
    t.clear();
    assert!(t.is_empty());
}

#[test]
fn filter_input_sends_text_on_each_edit() {
    let mut f = FilterInput::new("Filter Tables");
    assert_eq!(f.title, "Filter Tables");
    assert!(f.update(&Action::NewCharacter('x')).is_empty());
    let out = f.update(&Action::FilteringTables);
    assert_eq!(out.len(), 2);
    let out = f.update(&Action::NewCharacter('a'));
    assert!(matches!(&out[0], Action::TransmitSubmittedText(t) if t == "a"));
    let out = f.update(&Action::NewCharacter('b'));
    assert!(matches!(&out[0], Action::TransmitSubmittedText(t) if t == "ab"));
    let out = f.update(&Action::DeleteCharacter);
    assert!(matches!(&out[0], Action::TransmitSubmittedText(t) if t == "a"));
    let out = f.update(&Action::SubmitText);
    assert!(matches!(out[0], Action::ExitInsertMode));
    assert!(matches!(out[1], Action::SelectTableMode));
    f.update(&Action::ExitInsertMode);
    assert!(f.input.is_empty());
}

#[test]
fn dispatcher_modes_and_responses() {
    let mut d: Dispatcher = Dispatcher::new();
    assert_eq!(d.mode, Mode::View);
    d.handle_action(&Action::SelectTableMode);
    assert_eq!(d.mode, Mode::SelectTable);
    d.handle_action(&Action::FilterTableData);
    assert_eq!(d.mode, Mode::FilterData);
    d.handle_action(&Action::SubmitFilterDataText);
    assert_eq!(d.mode, Mode::SelectTableDataRow);
    d.handle_action(&Action::Render);
    assert_eq!(d.mode, Mode::SelectTableDataRow);
    let reqs = d.handle_action(&Action::FetchTables);
    assert!(matches!(reqs[0], FetchRequest::Tables));
    let reqs = d.handle_action(&Action::FetchTableData("t".to_string()));
    assert_eq!(reqs.len(), 2);
    assert!(d.last_evaluated_key.is_none());
    let out = d.handle_response(FetchResponse::NextBatchTableData("t".to_string(), vec![], cursor("7")));
    assert!(matches!(&out[0], Action::TransmitNextBatchTableData(v, true) if v.is_empty()));
    assert_eq!(cursor_id(&d.last_evaluated_key), Some("7".to_string()));
    let stale = d.handle_response(FetchResponse::TableData("old".to_string(), vec!["{}".to_string()], cursor("9")));
    assert!(stale.is_empty());
    assert_eq!(cursor_id(&d.last_evaluated_key), Some("7".to_string()));
    let more = d.handle_action(&Action::FetchMoreTableData("t".to_string()));
    assert!(matches!(&more[1], FetchRequest::NextBatchTableData(t, c) if t == "t" && cursor_id(c) == Some("7".to_string())));
    assert_eq!(cursor_id(&d.last_evaluated_key), Some("7".to_string()));
    let out = d.handle_response(FetchResponse::ApproximateTableDataCount(42));
    assert!(matches!(out[0], Action::ApproximateTableDataCount(42)));
    d.handle_action(&Action::Quit);
    assert!(d.should_quit);
}

#[test]
fn table_listing_gathers_pages() {
    let mut l = TableListing::new();
    let next = l.receive_page(&vec!["a".to_string(), "b".to_string()], Some("b".to_string()));
    assert_eq!(next, Some("b".to_string()));
    assert!(!l.done);
    let next = l.receive_page(&vec!["c".to_string()], None);
    assert_eq!(next, None);
    assert!(l.done);
    assert_eq!(l.names, vec!["a".to_string(), "b".to_string(), "c".to_string()]);
    let mut e = TableListing::new();
    e.receive_page(&vec!["x".to_string()], Some("x".to_string()));
    e.receive_error();
    assert!(e.names.is_empty());
    assert!(e.done);
}

#[test]
fn message_loading_texts() {
    assert!(Message::SelectCollection("t".to_string()).should_trigger_loading());
    assert!(Message::LoadMoreData.should_trigger_loading());
    assert!(!Message::ApplyCollectionsFilter.should_trigger_loading());
    assert_eq!(Message::SelectCollection("t".to_string()).loading_message(), Some("Fetching Data..."));
    assert_eq!(Message::LoadMoreData.loading_message(), Some("Loading More Data..."));
    assert_eq!(Message::CancelFilteringCollectionMode.loading_message(), None);
}

#[test]
fn status_loading_and_region_boxes() {
    let mut s = StatusBox::new();
    assert_eq!(s.status_text, "");
    s.set_status_text("ready");
    assert_eq!(s.status_text, "ready");
    s.update(&Action::UpdateStatusText("busy".to_string()));
    assert_eq!(s.status_text, "busy");
    let mut l = LoadingBox::new();
    assert_eq!(l.message, "Loading...");
    l.update(&Action::StartLoading("Fetching".to_string()));
    assert!(l.active);
    assert_eq!(l.message, "Fetching");
    l.update(&Action::Tick);
    assert_eq!(l.ticks, 1);
    l.update(&Action::StopLoading);
    assert!(!l.active);
    let mut r = AWSRegionBox::new("us-east-1");
    assert_eq!(r.region, "us-east-1");
    r.reset();
    assert!(!r.active);
}

#[test]
fn continuation_pages_concatenate_without_loss() {
    let mut dispatcher: Dispatcher = Dispatcher::new();
    let mut data = DataBox::new();
    data.update(&Action::TransmitSelectedTable("t".to_string()));
    data.update(&Action::FetchTableData("t".to_string()));
    dispatcher.handle_action(&Action::FetchTableData("t".to_string()));
    for a in &dispatcher.handle_response(FetchResponse::TableData("t".to_string(), page(0, 4), cursor("1"))) {
        data.update(a);
    }
    let pages = [(page(4, 3), cursor("2")), (page(7, 5), cursor("3")), (page(12, 2), None)];
    for (items, cursor) in pages {
        let out = data.update(&Action::SelectTableDataRowLast);
        assert_eq!(count_more_requests(&out), 1);
        let reqs = dispatcher.handle_action(&out[1]);
        assert!(matches!(&reqs[1], FetchRequest::NextBatchTableData(_, Some(_))));
        assert_eq!(count_more_requests(&data.update(&Action::SelectTableDataRowNext)), 0);
        for a in &dispatcher.handle_response(FetchResponse::NextBatchTableData("t".to_string(), items, cursor)) {
            data.update(a);
        }
    }
    assert_eq!(data.records, page(0, 14));
    assert!(!data.has_more);
    assert!(!data.fetching);
    assert_eq!(count_more_requests(&data.update(&Action::SelectTableDataRowLast)), 0);
}

#[test]
fn tree_rows_carry_scalar_text() {
    let mut detail = DataDetailBox::new();
    detail.set_record("{\"a\":{\"b\":1,\"c\":\"x\"},\"d\":null}");
    detail.toggle_node(&vec!["a".to_string()]);
    assert_eq!(detail.tree.len(), 5);
    assert_eq!(detail.tree[2].text, "1");
    assert_eq!(detail.tree[3].text, "x");
    assert_eq!(detail.tree[4].key, "d");
    assert_eq!(detail.tree[4].text, "null");
    assert_eq!(detail.tree[1].text, "");
}

#[test]
fn cursor_stays_stored_after_request() {
    let mut d = Dispatcher::new();
    d.handle_action(&Action::FetchTableData("t".to_string()));
    d.handle_response(FetchResponse::TableData("t".to_string(), vec![], cursor("k")));
    for _ in 0..2 {
        let reqs = d.handle_action(&Action::FetchMoreTableData("t".to_string()));
        assert!(matches!(&reqs[1], FetchRequest::NextBatchTableData(_, c) if cursor_id(c) == Some("k".to_string())));
        assert_eq!(cursor_id(&d.last_evaluated_key), Some("k".to_string()));
    }
}

#[test]
fn clearing_filter_resets_caret() {
    let mut data = DataBox::new();
    data.update(&Action::SelectDataMode);
    data.update(&Action::TransmitTableData(page(0, 3), false));
    data.update(&Action::NewFilterDataCharacter('1'));
    assert_eq!(data.filter_input.caret(), 1);
    data.update(&Action::ClearTableDataFilter);
    assert_eq!(data.filter_input.caret(), 0);
    assert_eq!(data.filtered_records, page(0, 3));
}

#[test]
fn typed_characters_follow_the_mode() {
    assert!(matches!(text_entry_action(Mode::Insert, 'x'), Some(Action::NewCharacter('x'))));
    assert!(matches!(text_entry_action(Mode::FilterData, 'y'), Some(Action::NewFilterDataCharacter('y'))));
    assert!(matches!(text_entry_action(Mode::QueryData, 'z'), Some(Action::NewQueryDataCharacter('z'))));
    assert!(text_entry_action(Mode::SelectTable, 'x').is_none());
}
