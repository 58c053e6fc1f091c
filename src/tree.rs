use crate::strings::clone_strings;
use crate::json::{lemma_item_smaller, lemma_member_smaller, parsed_json, Json};
use vstd::prelude::*;

verus! {

broadcast use vstd::std_specs::vec::axiom_vec_index_decreases;

/// The decimal digits of `n`, most significant first.
pub open spec fn decimal(n: nat) -> Seq<char>
    decreases n,
{
    if n < 10 {
        seq![digit_char(n)]
    } else {
        decimal(n / 10).push(digit_char(n % 10))
    }
}

pub open spec fn digit_char(d: nat) -> char {
    if d == 0 { '0' } else if d == 1 { '1' } else if d == 2 { '2' } else if d == 3 { '3' }
    else if d == 4 { '4' } else if d == 5 { '5' } else if d == 6 { '6' } else if d == 7 { '7' }
    else if d == 8 { '8' } else { '9' }
}

/// Relies on `usize`'s `Display` (through `ToString`): an integer is written
/// in decimal without sign or leading zeros.
#[verifier::external_body]
fn index_text(i: usize) -> (r: String)
    ensures
        r@ == decimal(i as nat),
{
    i.to_string()
}

/// A path from the record's root: object keys and array indices (written in
/// decimal), outermost first.
pub open spec fn path_view(p: Seq<String>) -> Seq<Seq<char>> {
    p.map_values(|s: String| s@)
}

/// Whether two paths name the same place.
pub fn same_path(a: &Vec<String>, b: &Vec<String>) -> (r: bool)
    ensures
        r == (path_view(a@) == path_view(b@)),
{
    if a.len() != b.len() {
        assert(path_view(a@).len() != path_view(b@).len());
        return false;
    }
    let mut i: usize = 0;
    while i < a.len()
        invariant
            i <= a.len(),
            a.len() == b.len(),
            forall|k: int| 0 <= k < i ==> #[trigger] a@[k]@ == b@[k]@,
        decreases a.len() - i,
    {
        if a[i] != b[i] {
            assert(path_view(a@)[i as int] != path_view(b@)[i as int]);
            return false;
        }
        i = i + 1;
    }
    assert(path_view(a@) =~= path_view(b@));
    true
}

/// The remembered expansion state: the set of paths that are expanded.
/// Paths that were never toggled, or toggled back, are collapsed.
pub struct ExpansionMemory {
    paths: Vec<Vec<String>>,
}

impl ExpansionMemory {
    pub closed spec fn entries(&self) -> Seq<Seq<Seq<char>>> {
        self.paths@.map_values(|p: Vec<String>| path_view(p@))
    }

    pub closed spec fn expanded(&self) -> Set<Seq<Seq<char>>> {
        self.entries().to_set()
    }

    pub closed spec fn wf(&self) -> bool {
        self.entries().no_duplicates()
    }

    pub fn new() -> (r: ExpansionMemory)
        ensures
            r.wf(),
            r.expanded() == Set::<Seq<Seq<char>>>::empty(),
    {
        let r = ExpansionMemory { paths: Vec::new() };
        assert(r.entries() =~= Seq::<Seq<Seq<char>>>::empty());
        assert(r.expanded() =~= Set::<Seq<Seq<char>>>::empty());
        r
    }

    fn position(&self, path: &Vec<String>) -> (r: Option<usize>)
        ensures
            match r {
                Some(i) => i < self.entries().len() && self.entries()[i as int] == path_view(path@),
                None => !self.entries().contains(path_view(path@)),
            },
    {
        let mut i: usize = 0;
        while i < self.paths.len()
            invariant
                i <= self.paths.len(),
                forall|k: int| 0 <= k < i ==> #[trigger] self.entries()[k] != path_view(path@),
            decreases self.paths.len() - i,
        {
            if same_path(&self.paths[i], path) {
                return Some(i);
            }
            i = i + 1;
        }
        None
    }

    pub fn is_expanded(&self, path: &Vec<String>) -> (r: bool)
        ensures
            r == self.expanded().contains(path_view(path@)),
    {
        match self.position(path) {
            Some(_) => true,
            None => false,
        }
    }

    /// Flips the remembered expansion of exactly this path.
    pub fn toggle(&mut self, path: &Vec<String>)
        requires
            old(self).wf(),
        ensures
            final(self).wf(),
            final(self).expanded() == toggled(old(self).expanded(), path_view(path@)),
    {
        let ghost before = self.entries();
        match self.position(path) {
            Some(i) => {
                self.paths.remove(i);
                proof {
                    let after = self.entries();
                    assert(after =~= before.remove(i as int));
                    assert forall|a: int, b: int| 0 <= a < b < after.len() implies after[a] != after[b] by {
                        let a0 = if a < i { a } else { a + 1 };
                        let b0 = if b < i { b } else { b + 1 };
                        assert(after[a] == before[a0] && after[b] == before[b0]);
                    }
                    assert forall|q| after.to_set().contains(q) <==> toggled(before.to_set(), path_view(path@)).contains(q) by {
                        if after.contains(q) {
                            let k = choose|k: int| 0 <= k < after.len() && after[k] == q;
                            if k < i {
                                assert(before[k] == q);
                            } else {
                                assert(before[k + 1] == q);
                            }
                        }
                        if q != path_view(path@) && before.contains(q) {
                            let k = choose|k: int| 0 <= k < before.len() && before[k] == q;
                            if k < i {
                                assert(after[k] == q);
                            } else {
                                assert(after[k - 1] == q);
                            }
                        }
                    }
                    assert(after.to_set() =~= toggled(before.to_set(), path_view(path@)));
                }
            },
            None => {
                self.paths.push(clone_strings(path));
                proof {
                    let after = self.entries();
                    assert(after =~= before.push(path_view(path@)));
                    assert forall|q| after.to_set().contains(q) <==> toggled(before.to_set(), path_view(path@)).contains(q) by {
                        if after.contains(q) {
                            let k = choose|k: int| 0 <= k < after.len() && after[k] == q;
                            if k < before.len() {
                                assert(before[k] == q);
                            }
                        }
                        if before.contains(q) {
                            let k = choose|k: int| 0 <= k < before.len() && before[k] == q;
                            assert(after[k] == q);
                        }
                        if q == path_view(path@) {
                            assert(after[before.len() as int] == q);
                        }
                    }
                    assert(after.to_set() =~= toggled(before.to_set(), path_view(path@)));
                    assert forall|a: int, b: int| 0 <= a < b < after.len() implies after[a] != after[b] by {
                        if b == before.len() {
                            assert(before[a] == after[a]);
                        }
                    }
                }
            },
        }
    }
}

/// The set with `p`'s membership flipped.
pub open spec fn toggled(s: Set<Seq<Seq<char>>>, p: Seq<Seq<char>>) -> Set<Seq<Seq<char>>> {
    if s.contains(p) {
        s.remove(p)
    } else {
        s.insert(p)
    }
}

/// Toggling a path twice leaves the remembered expansion as it was.
pub proof fn lemma_toggle_twice(s: Set<Seq<Seq<char>>>, p: Seq<Seq<char>>)
    ensures
        toggled(toggled(s, p), p) == s,
{
    assert(toggled(toggled(s, p), p) =~= s);
}

/// How a value is shown on its row: a scalar as its text, a container as
/// nothing (its children carry the content).
pub open spec fn value_text(j: Json) -> Seq<char> {
    match j {
        Json::Null => "null"@,
        Json::Bool(b) => if b { "true"@ } else { "false"@ },
        Json::Number(n) => n@,
        Json::Str(s) => s@,
        _ => Seq::empty(),
    }
}

pub fn scalar_text(j: &Json) -> (r: String)
    ensures
        r@ == value_text(*j),
{
    match j {
        Json::Null => String::from_str("null"),
        Json::Bool(b) => if *b { String::from_str("true") } else { String::from_str("false") },
        Json::Number(n) => n.clone(),
        Json::Str(s) => s.clone(),
        _ => String::new(),
    }
}

/// One visible row of the tree: the key it is shown under, the text of a
/// scalar value, whether it is a container and expanded, and its path (a
/// row's depth is its path length).
pub struct TreeRow {
    pub key: String,
    pub text: String,
    pub depth: usize,
    pub expanded: bool,
    pub container: bool,
    pub path: Vec<String>,
}

pub struct RowView {
    pub key: Seq<char>,
    pub text: Seq<char>,
    pub depth: nat,
    pub expanded: bool,
    pub container: bool,
    pub path: Seq<Seq<char>>,
}

impl View for TreeRow {
    type V = RowView;

    open spec fn view(&self) -> RowView {
        RowView {
            key: self.key@,
            text: self.text@,
            depth: self.depth as nat,
            expanded: self.expanded,
            container: self.container,
            path: path_view(self.path@),
        }
    }
}

pub open spec fn rows_view(rows: Seq<TreeRow>) -> Seq<RowView> {
    rows.map_values(|r: TreeRow| r@)
}

pub open spec fn child_count(j: Json) -> nat {
    match j {
        Json::Array(items) => items@.len(),
        Json::Object(members) => members@.len(),
        _ => 0,
    }
}

/// The row of a child reached by `p`, expanded when it is a container whose
/// path is remembered as expanded.
pub open spec fn child_row(c: Json, key: Seq<char>, p: Seq<Seq<char>>, mem: Set<Seq<Seq<char>>>) -> RowView {
    RowView {
        key,
        text: value_text(c),
        depth: p.len(),
        expanded: c.is_container() && mem.contains(p),
        container: c.is_container(),
        path: p,
    }
}

/// The rows for the children of `j` from the `i`-th on, each followed by its
/// own visible rows when it is expanded.
pub open spec fn child_rows(j: Json, i: nat, path: Seq<Seq<char>>, mem: Set<Seq<Seq<char>>>) -> Seq<RowView>
    decreases j, child_count(j) - i,
{
    match j {
        Json::Array(items) => if i < items@.len() {
            let c = items[i as int];
            let p = path.push(decimal(i));
            let below = if c.is_container() && mem.contains(p) {
                child_rows(c, 0, p, mem)
            } else {
                Seq::empty()
            };
            seq![child_row(c, decimal(i), p, mem)] + below + child_rows(j, i + 1, path, mem)
        } else {
            Seq::empty()
        },
        Json::Object(members) => if i < members@.len() {
            let c = members[i as int].value;
            let key = members[i as int].key@;
            let p = path.push(key);
            let below = if c.is_container() && mem.contains(p) {
                child_rows(c, 0, p, mem)
            } else {
                Seq::empty()
            };
            seq![child_row(c, key, p, mem)] + below + child_rows(j, i + 1, path, mem)
        } else {
            Seq::empty()
        },
        _ => Seq::empty(),
    }
}

/// The visible rows of a record: a row for the root, which is always open,
/// then the rows of its children; a scalar root is one row.
pub open spec fn tree_rows(j: Json, mem: Set<Seq<Seq<char>>>) -> Seq<RowView> {
    let root = RowView {
        key: Seq::empty(),
        text: value_text(j),
        depth: 0,
        expanded: j.is_container(),
        container: j.is_container(),
        path: Seq::empty(),
    };
    if j.is_container() {
        seq![root] + child_rows(j, 0, Seq::empty(), mem)
    } else {
        seq![root]
    }
}

/// The rows of a stored record: none when it is not valid JSON.
pub open spec fn record_rows(record: Seq<char>, mem: Set<Seq<Seq<char>>>) -> Seq<RowView> {
    match parsed_json(record) {
        Some(j) => tree_rows(j, mem),
        None => Seq::empty(),
    }
}

/// Toggling a path twice in a row gives back exactly the visible rows that
/// were there before, whatever the record and the remembered state.
pub proof fn lemma_tree_round_trip(record: Seq<char>, mem: Set<Seq<Seq<char>>>, p: Seq<Seq<char>>)
    ensures
        record_rows(record, toggled(toggled(mem, p), p)) == record_rows(record, mem),
{
    lemma_toggle_twice(mem, p);
}

proof fn lemma_rows_push(rows: Seq<TreeRow>, r: TreeRow)
    ensures
        rows_view(rows.push(r)) == rows_view(rows).push(r@),
{
    assert(rows_view(rows.push(r)) =~= rows_view(rows).push(r@));
}

fn extended_path(path: &Vec<String>, key: String) -> (r: Vec<String>)
    ensures
        path_view(r@) == path_view(path@).push(key@),
        r@.len() == path@.len() + 1,
{
    let mut p = clone_strings(path);
    p.push(key);
    assert(path_view(p@) =~= path_view(path@).push(key@));
    p
}

/// Appends the rows for the children of `j` from the `i`-th on.
fn build_children(
    j: &Json,
    i: usize,
    path: &Vec<String>,
    mem: &ExpansionMemory,
    out: &mut Vec<TreeRow>,
)
    requires
        i <= child_count(*j),
    ensures
        rows_view(final(out)@) == rows_view(old(out)@) + child_rows(*j, i as nat, path_view(path@), mem.expanded()),
    decreases *j, child_count(*j) - i,
{
    match j {
        Json::Array(items) => {
            if i >= items.len() {
                assert(rows_view(out@) =~= rows_view(out@) + Seq::<RowView>::empty());
                return;
            }
            let c = &items[i];
            let key = index_text(i);
            let p = extended_path(path, key.clone());
            let open = (matches!(c, Json::Array(_)) || matches!(c, Json::Object(_))) && mem.is_expanded(&p);
            let row = TreeRow {
                key,
                text: scalar_text(c),
                depth: p.len(),
                expanded: open,
                container: matches!(c, Json::Array(_)) || matches!(c, Json::Object(_)),
                path: clone_strings(&p),
            };
            let ghost before = rows_view(out@);
            proof {
                lemma_rows_push(out@, row);
            }
            out.push(row);
            let ghost with_row = rows_view(out@);
            if open {
                proof {
                    lemma_item_smaller(*j, i as int);
                }
                build_children(c, 0, &p, mem, out);
            }
            let ghost with_below = rows_view(out@);
            build_children(j, i + 1, path, mem, out);
            proof {
                let below = if open {
                    child_rows(*c, 0, path_view(p@), mem.expanded())
                } else {
                    Seq::<RowView>::empty()
                };
                assert(with_below =~= with_row + below);
                assert(rows_view(out@) =~= before + (seq![row@] + below + child_rows(
                    *j,
                    i as nat + 1,
                    path_view(path@),
                    mem.expanded(),
                )));
            }
        },
        Json::Object(members) => {
            if i >= members.len() {
                assert(rows_view(out@) =~= rows_view(out@) + Seq::<RowView>::empty());
                return;
            }
            let c = &members[i].value;
            let key = members[i].key.clone();
            let p = extended_path(path, key.clone());
            let open = (matches!(c, Json::Array(_)) || matches!(c, Json::Object(_))) && mem.is_expanded(&p);
            let row = TreeRow {
                key,
                text: scalar_text(c),
                depth: p.len(),
                expanded: open,
                container: matches!(c, Json::Array(_)) || matches!(c, Json::Object(_)),
                path: clone_strings(&p),
            };
            let ghost before = rows_view(out@);
            proof {
                lemma_rows_push(out@, row);
            }
            out.push(row);
            let ghost with_row = rows_view(out@);
            if open {
                proof {
                    lemma_member_smaller(*j, i as int);
                }
                build_children(c, 0, &p, mem, out);
            }
            let ghost with_below = rows_view(out@);
            build_children(j, i + 1, path, mem, out);
            proof {
                let below = if open {
                    child_rows(*c, 0, path_view(p@), mem.expanded())
                } else {
                    Seq::<RowView>::empty()
                };
                assert(with_below =~= with_row + below);
                assert(rows_view(out@) =~= before + (seq![row@] + below + child_rows(
                    *j,
                    i as nat + 1,
                    path_view(path@),
                    mem.expanded(),
                )));
            }
        },
        _ => {
            assert(rows_view(out@) =~= rows_view(out@) + Seq::<RowView>::empty());
        },
    }
}

/// The visible rows of a record under the remembered expansion state.
pub fn build_tree(j: &Json, mem: &ExpansionMemory) -> (r: Vec<TreeRow>)
    ensures
        rows_view(r@) == tree_rows(*j, mem.expanded()),
{
    let container = matches!(j, Json::Array(_)) || matches!(j, Json::Object(_));
    let mut out: Vec<TreeRow> = Vec::new();
    let root = TreeRow {
        key: String::new(),
        text: scalar_text(j),
        depth: 0,
        expanded: container,
        container,
        path: Vec::new(),
    };
    proof {
        lemma_rows_push(out@, root);
        assert(path_view(root.path@) =~= Seq::<Seq<char>>::empty());
    }
    out.push(root);
    if container {
        let empty: Vec<String> = Vec::new();
        assert(path_view(empty@) =~= Seq::<Seq<char>>::empty());
        build_children(j, 0, &empty, mem, &mut out);
    }
    assert(rows_view(out@) =~= tree_rows(*j, mem.expanded()));
    out
}

} // verus!
