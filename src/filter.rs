use crate::fuzzy::{fuzzy_matches, skim_match};
use crate::json::{lemma_item_smaller, lemma_member_smaller, parse_json, parsed_json, Json};
use crate::strings::clone_strings;
use vstd::prelude::*;

verus! {

broadcast use vstd::std_specs::vec::axiom_vec_index_decreases;

/// The whitespace-separated words of `s`, in order.
pub uninterp spec fn words_of(s: Seq<char>) -> Seq<Seq<char>>;

/// Relies on `str::split_whitespace`: the words of `s`, in order, none of them
/// empty; a string without words yields none.
#[verifier::external_body]
fn split_words(s: &str) -> (r: Vec<String>)
    ensures
        r@.len() == words_of(s@).len(),
        forall|i: int| 0 <= i < r@.len() ==> #[trigger] r@[i]@ == words_of(s@)[i],
{
    s.split_whitespace().map(|w| w.to_string()).collect()
}

pub open spec fn bool_text(b: bool) -> Seq<char> {
    if b {
        "true"@
    } else {
        "false"@
    }
}

/// A keyword hits a record when it fuzzy-matches some object key or some
/// scalar anywhere inside it; `null` is never hit.
pub open spec fn keyword_hits(keyword: Seq<char>, j: Json) -> bool
    decreases j,
{
    match j {
        Json::Null => false,
        Json::Bool(b) => skim_match(bool_text(b), keyword),
        Json::Number(n) => skim_match(n@, keyword),
        Json::Str(s) => skim_match(s@, keyword),
        Json::Array(items) => exists|i: int|
            0 <= i < items.len() && keyword_hits(keyword, #[trigger] items[i]),
        Json::Object(members) => exists|i: int|
            #![trigger members[i]]
            0 <= i < members.len() && (skim_match(members[i].key@, keyword)
                || keyword_hits(keyword, members[i].value)),
    }
}

/// Every keyword hits the record.
pub open spec fn all_keywords_hit(keywords: Seq<Seq<char>>, j: Json) -> bool {
    forall|i: int| 0 <= i < keywords.len() ==> #[trigger] keyword_hits(keywords[i], j)
}

/// A stored record passes a non-empty filter text when it parses and every
/// word of the filter text hits it.
pub open spec fn record_passes(filter: Seq<char>, record: Seq<char>) -> bool {
    match parsed_json(record) {
        Some(j) => all_keywords_hit(words_of(filter), j),
        None => false,
    }
}

/// The items of `raw` that satisfy `keep`, in their given order.
pub open spec fn keep_if(raw: Seq<String>, keep: spec_fn(Seq<char>) -> bool) -> Seq<String>
    decreases raw.len(),
{
    if raw.len() == 0 {
        Seq::empty()
    } else {
        let rest = keep_if(raw.drop_last(), keep);
        if keep(raw.last()@) {
            rest.push(raw.last())
        } else {
            rest
        }
    }
}

/// The records shown for a filter text: all of them for an empty text,
/// else those that pass it.
pub open spec fn records_view(raw: Seq<String>, filter: Seq<char>) -> Seq<String> {
    if filter.len() == 0 {
        raw
    } else {
        keep_if(raw, |r: Seq<char>| record_passes(filter, r))
    }
}

/// Every word of the filter text fuzzy-matches the name.
pub open spec fn name_passes(filter: Seq<char>, name: Seq<char>) -> bool {
    forall|i: int| 0 <= i < words_of(filter).len() ==> #[trigger] skim_match(name, words_of(filter)[i])
}

/// The table names shown for a filter text: all of them for an empty text,
/// else those that every word of the text fuzzy-matches.
pub open spec fn names_view(raw: Seq<String>, filter: Seq<char>) -> Seq<String> {
    if filter.len() == 0 {
        raw
    } else {
        keep_if(raw, |n: Seq<char>| name_passes(filter, n))
    }
}

/// Whether `keyword` fuzzy-matches some key or scalar of `j`; stops at the
/// first hit.
#[verifier::loop_isolation(false)]
pub fn keyword_matches_json(keyword: &str, j: &Json) -> (r: bool)
    ensures
        r == keyword_hits(keyword@, *j),
    decreases j,
{
    match j {
        Json::Null => false,
        Json::Bool(b) => {
            if *b {
                fuzzy_matches("true", keyword)
            } else {
                fuzzy_matches("false", keyword)
            }
        },
        Json::Number(n) => fuzzy_matches(n.as_str(), keyword),
        Json::Str(s) => fuzzy_matches(s.as_str(), keyword),
        Json::Array(items) => {
            let mut i: usize = 0;
            while i < items.len()
                invariant
                    i <= items.len(),
                    *j == Json::Array(*items),
                    forall|k: int| 0 <= k < i ==> !keyword_hits(keyword@, #[trigger] items[k]),
                decreases items.len() - i,
            {
                proof {
                    lemma_item_smaller(*j, i as int);
                }
                if keyword_matches_json(keyword, &items[i]) {
                    assert(keyword_hits(keyword@, items[i as int]));
                    assert(keyword_hits(keyword@, *j)) by {
                        reveal_with_fuel(keyword_hits, 2);
                    }
                    return true;
                }
                i = i + 1;
            }
            assert(!keyword_hits(keyword@, *j)) by {
                reveal_with_fuel(keyword_hits, 2);
            }
            false
        },
        Json::Object(members) => {
            let mut i: usize = 0;
            while i < members.len()
                invariant
                    i <= members.len(),
                    *j == Json::Object(*members),
                    forall|k: int|
                        #![trigger members[k]]
                        0 <= k < i ==> !skim_match(members[k].key@, keyword@)
                            && !keyword_hits(keyword@, members[k].value),
                decreases members.len() - i,
            {
                if fuzzy_matches(members[i].key.as_str(), keyword) {
                    assert(skim_match(members[i as int].key@, keyword@));
                    assert(keyword_hits(keyword@, *j));
                    return true;
                }
                proof {
                    lemma_member_smaller(*j, i as int);
                }
                if keyword_matches_json(keyword, &members[i].value) {
                    assert(keyword_hits(keyword@, members[i as int].value));
                    assert(keyword_hits(keyword@, *j));
                    return true;
                }
                assert(!skim_match(members[i as int].key@, keyword@));
                assert(!keyword_hits(keyword@, members[i as int].value));
                i = i + 1;
            }
            assert(!keyword_hits(keyword@, *j)) by {
                reveal_with_fuel(keyword_hits, 2);
            }
            false
        },
    }
}

/// Whether every keyword hits the record.
pub fn all_keywords_match(keywords: &Vec<String>, j: &Json) -> (r: bool)
    ensures
        r == all_keywords_hit(keywords@.map_values(|k: String| k@), *j),
{
    let ghost ks = keywords@.map_values(|k: String| k@);
    let mut i: usize = 0;
    while i < keywords.len()
        invariant
            i <= keywords.len(),
            ks == keywords@.map_values(|k: String| k@),
            forall|k: int| 0 <= k < i ==> #[trigger] keyword_hits(ks[k], *j),
        decreases keywords.len() - i,
    {
        if !keyword_matches_json(keywords[i].as_str(), j) {
            assert(!keyword_hits(ks[i as int], *j));
            return false;
        }
        i = i + 1;
    }
    true
}

/// Whether a stored record passes a filter text: it must parse, and every
/// word of the text must hit it.
pub fn record_matches(filter: &str, record: &str) -> (r: bool)
    ensures
        r == record_passes(filter@, record@),
{
    let words = split_words(filter);
    proof {
        assert(words@.map_values(|k: String| k@) =~= words_of(filter@));
    }
    match parse_json(record) {
        Some(j) => all_keywords_match(&words, &j),
        None => false,
    }
}

/// The records that a filter text keeps, in their given order; an empty
/// text keeps them all.
pub fn filter_records(raw: &Vec<String>, filter: &str) -> (r: Vec<String>)
    ensures
        r@ == records_view(raw@, filter@),
{
    if filter.is_empty() {
        return clone_strings(raw);
    }
    let mut out: Vec<String> = Vec::new();
    let ghost keep = |r: Seq<char>| record_passes(filter@, r);
    let mut i: usize = 0;
    while i < raw.len()
        invariant
            i <= raw.len(),
            filter@.len() > 0,
            keep == (|r: Seq<char>| record_passes(filter@, r)),
            out@ == keep_if(raw@.subrange(0, i as int), keep),
        decreases raw.len() - i,
    {
        let ghost prefix = raw@.subrange(0, i as int + 1);
        assert(prefix.drop_last() =~= raw@.subrange(0, i as int));
        if record_matches(filter, raw[i].as_str()) {
            out.push(raw[i].clone());
        }
        i = i + 1;
    }
    assert(raw@.subrange(0, raw@.len() as int) =~= raw@);
    out
}

/// Whether every word fuzzy-matches the name.
fn name_matches_words(words: &Vec<String>, name: &str) -> (r: bool)
    ensures
        r == (forall|i: int| 0 <= i < words@.len() ==> #[trigger] skim_match(name@, words@[i]@)),
{
    let mut i: usize = 0;
    while i < words.len()
        invariant
            i <= words.len(),
            forall|k: int| 0 <= k < i ==> #[trigger] skim_match(name@, words@[k]@),
        decreases words.len() - i,
    {
        if !fuzzy_matches(name, words[i].as_str()) {
            return false;
        }
        i = i + 1;
    }
    true
}

/// The table names that every word of the filter text fuzzy-matches, in
/// their given order; an empty text keeps them all.
pub fn filter_names(raw: &Vec<String>, filter: &str) -> (r: Vec<String>)
    ensures
        r@ == names_view(raw@, filter@),
{
    if filter.is_empty() {
        return clone_strings(raw);
    }
    let words = split_words(filter);
    let mut out: Vec<String> = Vec::new();
    let ghost keep = |n: Seq<char>| name_passes(filter@, n);
    let mut i: usize = 0;
    while i < raw.len()
        invariant
            i <= raw.len(),
            filter@.len() > 0,
            keep == (|n: Seq<char>| name_passes(filter@, n)),
            words@.len() == words_of(filter@).len(),
            forall|k: int| 0 <= k < words@.len() ==> #[trigger] words@[k]@ == words_of(filter@)[k],
            out@ == keep_if(raw@.subrange(0, i as int), keep),
        decreases raw.len() - i,
    {
        let ghost prefix = raw@.subrange(0, i as int + 1);
        assert(prefix.drop_last() =~= raw@.subrange(0, i as int));
        let hit = name_matches_words(&words, raw[i].as_str());
        assert(hit == name_passes(filter@, raw@[i as int]@)) by {
            if hit {
                assert forall|k: int| 0 <= k < words_of(filter@).len() implies #[trigger] skim_match(
                    raw@[i as int]@,
                    words_of(filter@)[k],
                ) by {
                    assert(words@[k]@ == words_of(filter@)[k]);
                }
            } else {
                let k = choose|k: int| 0 <= k < words@.len() && !skim_match(raw@[i as int]@, #[trigger] words@[k]@);
                assert(words@[k]@ == words_of(filter@)[k]);
            }
        }
        if hit {
            out.push(raw[i].clone());
        }
        i = i + 1;
    }
    assert(raw@.subrange(0, raw@.len() as int) =~= raw@);
    out
}

/// An empty filter text shows the whole buffer, in its given order,
/// whatever was shown before.
pub proof fn lemma_empty_filter_shows_all(raw: Seq<String>)
    ensures
        records_view(raw, Seq::empty()) == raw,
        names_view(raw, Seq::empty()) == raw,
{
}

/// Matching is monotone in the keywords: a record that every keyword of `k2`
/// hits is hit by every keyword of any `k1` drawn from `k2`.
pub proof fn lemma_fewer_keywords_still_match(k1: Seq<Seq<char>>, k2: Seq<Seq<char>>, j: Json)
    requires
        forall|w: Seq<char>| k1.contains(w) ==> k2.contains(w),
        all_keywords_hit(k2, j),
    ensures
        all_keywords_hit(k1, j),
{
    assert forall|i: int| 0 <= i < k1.len() implies #[trigger] keyword_hits(k1[i], j) by {
        assert(k1.contains(k1[i]));
        let m = choose|m: int| 0 <= m < k2.len() && k2[m] == k1[i];
        assert(keyword_hits(k2[m], j));
    }
}

} // verus!
