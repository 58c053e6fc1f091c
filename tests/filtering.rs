use dynamo_browser::collections_box::CollectionsBox;
use dynamo_browser::filter::{filter_names, filter_records, keyword_matches_json, record_matches};
use dynamo_browser::fuzzy::fuzzy_matches;
use dynamo_browser::json::{parse_json, Json};
use dynamo_browser::action::Action;

fn strings(items: &[&str]) -> Vec<String> {
    items.iter().map(|s| s.to_string()).collect()
}

#[test]
fn fuzzy_subsequence_matches() {
    assert!(fuzzy_matches("Alice", "al"));
    assert!(fuzzy_matches("Carol", "al"));
    assert!(!fuzzy_matches("Bob", "al"));
    assert!(fuzzy_matches("anything", ""));
    assert!(!fuzzy_matches("abc", "cba"));
}

#[test]
fn scenario_a_names_filtered_by_al() {
    let raw = strings(&["Alice", "Bob", "Carol"]);
    let out = filter_names(&raw, "al");
    assert_eq!(out, strings(&["Alice", "Carol"]));
    assert!(!out.contains(&"Bob".to_string()));
}

#[test]
fn empty_filter_keeps_all_names_in_order() {
    let raw = strings(&["zeta", "alpha", "mid"]);
    assert_eq!(filter_names(&raw, ""), raw);
}

#[test]
fn empty_filter_keeps_all_records_even_invalid() {
    let raw = strings(&["{\"a\":1}", "not json", "[1,2]"]);
    assert_eq!(filter_records(&raw, ""), raw);
}

#[test]
fn records_filtered_by_every_keyword() {
    let raw = strings(&[
        "{\"name\":\"alice\",\"city\":\"paris\"}",
        "{\"name\":\"bob\",\"city\":\"paris\"}",
        "{\"name\":\"alice\",\"city\":\"rome\"}",
    ]);
    let out = filter_records(&raw, "alice paris");
    assert_eq!(out, strings(&["{\"name\":\"alice\",\"city\":\"paris\"}"]));
}

#[test]
fn invalid_record_never_matches_nonempty_filter() {
    let raw = strings(&["not json at all", "{\"k\":\"v\"}"]);
    assert_eq!(filter_records(&raw, "not"), Vec::<String>::new());
    assert!(!record_matches("x", "{broken"));
}

#[test]
fn whitespace_only_filter_keeps_valid_records_only() {
    let raw = strings(&["{\"k\":1}", "oops"]);
    assert_eq!(filter_records(&raw, "   "), strings(&["{\"k\":1}"]));
}

#[test]
fn keyword_hits_keys_nested_values_numbers_and_bools() {
    let j = parse_json("{\"outer\":{\"inner\":[10,true,null]}}").unwrap();
    assert!(keyword_matches_json("outer", &j));
    assert!(keyword_matches_json("inner", &j));
    assert!(keyword_matches_json("10", &j));
    assert!(keyword_matches_json("true", &j));
    assert!(!keyword_matches_json("null", &j));
    assert!(!keyword_matches_json("zzz", &j));
}

#[test]
fn fewer_keywords_still_match() {
    let record = "{\"name\":\"alice\",\"city\":\"paris\"}";
    assert!(record_matches("alice paris", record));
    assert!(record_matches("alice", record));
    assert!(record_matches("paris", record));
    assert!(!record_matches("alice rome", record));
}

#[test]
fn parse_json_builds_the_record() {
    match parse_json("{\"a\":[1,\"x\"],\"b\":false}") {
        Some(Json::Object(members)) => {
            assert_eq!(members.len(), 2);
            assert_eq!(members[0].key, "a");
            match &members[0].value {
                Json::Array(items) => {
                    assert_eq!(items.len(), 2);
                    assert!(matches!(&items[0], Json::Number(n) if n == "1"));
                    assert!(matches!(&items[1], Json::Str(s) if s == "x"));
                }
                _ => panic!("expected an array"),
            }
            assert!(matches!(members[1].value, Json::Bool(false)));
        }
        _ => panic!("expected an object"),
    }
    assert!(parse_json("{oops").is_none());
}

#[test]
fn collections_box_filters_and_clamps_selection() {
    let mut b = CollectionsBox::new();
    b.update(&Action::TransmitTables(strings(&["Alice", "Bob", "Carol"])));
    assert_eq!(b.filtered_collections.len(), 3);
    assert_eq!(b.selection.selected, Some(0));
    b.update(&Action::SelectTableLast);
    assert_eq!(b.selection.selected, Some(2));
    b.update(&Action::TransmitSubmittedText("bob".to_string()));
    assert_eq!(b.filtered_collections, strings(&["Bob"]));
    assert_eq!(b.selection.selected, Some(0));
    b.update(&Action::TransmitSubmittedText("qqq".to_string()));
    assert!(b.filtered_collections.is_empty());
    assert_eq!(b.selection.selected, None);
    b.update(&Action::TransmitSubmittedText("".to_string()));
    assert_eq!(b.filtered_collections, strings(&["Alice", "Bob", "Carol"]));
    assert_eq!(b.selection.selected, Some(0));
}

#[test]
fn collections_box_select_table_emits_fetch() {
    let mut b = CollectionsBox::new();
    b.update(&Action::TransmitTables(strings(&["t1", "t2"])));
    b.update(&Action::SelectTableNext);
    let out = b.update(&Action::SelectTable);
    assert_eq!(out.len(), 3);
    assert!(matches!(&out[0], Action::StartLoading(m) if m == "Fetching Table Data"));
    assert!(matches!(&out[1], Action::TransmitSelectedTable(t) if t == "t2"));
    assert!(matches!(&out[2], Action::FetchTableData(t) if t == "t2"));
    assert_eq!(b.selected_collection, "t2");
}

#[test]
fn collections_box_select_mode_loads_tables_when_empty() {
    let mut b = CollectionsBox::new();
    let out = b.update(&Action::SelectTableMode);
    assert_eq!(out.len(), 2);
    assert!(matches!(&out[0], Action::StartLoading(m) if m == "Fetching Tables"));
    assert!(matches!(out[1], Action::FetchTables));
    b.update(&Action::TransmitTables(strings(&["t"])));
    let out = b.update(&Action::SelectTableMode);
    assert_eq!(out.len(), 1);
}

#[test]
fn names_filtered_by_every_word() {
    let raw = strings(&["orders_archive", "orders", "archive"]);
    assert_eq!(filter_names(&raw, "ord arch"), strings(&["orders_archive"]));
    assert_eq!(filter_names(&raw, "  "), raw);
}

#[test]
fn capital_in_pattern_makes_match_exact() {
    assert!(fuzzy_matches("Alice", "Al"));
    assert!(!fuzzy_matches("alice", "Al"));
    assert!(fuzzy_matches("ALICE", "al"));
}
