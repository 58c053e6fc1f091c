use vstd::prelude::*;

verus! {

/// The value of one key attribute, as the store types it.
pub enum KeyValue {
    S(String),
    N(String),
    B(Vec<u8>),
}

pub enum KeyValueView {
    S(Seq<char>),
    N(Seq<char>),
    B(Seq<u8>),
}

impl View for KeyValue {
    type V = KeyValueView;

    open spec fn view(&self) -> KeyValueView {
        match self {
            KeyValue::S(s) => KeyValueView::S(s@),
            KeyValue::N(n) => KeyValueView::N(n@),
            KeyValue::B(b) => KeyValueView::B(b@),
        }
    }
}

/// One key attribute of a cursor: its name and value.
pub struct KeyPart {
    pub name: String,
    pub value: KeyValue,
}

/// The store's continuation cursor: the key attributes of the last item a
/// page held. The core only keeps it and hands it back; it never looks inside.
pub struct Cursor {
    pub parts: Vec<KeyPart>,
}

impl View for Cursor {
    type V = Seq<(Seq<char>, KeyValueView)>;

    open spec fn view(&self) -> Seq<(Seq<char>, KeyValueView)> {
        self.parts@.map_values(|p: KeyPart| (p.name@, p.value@))
    }
}

pub open spec fn cursor_view(c: Option<Cursor>) -> Option<Seq<(Seq<char>, KeyValueView)>> {
    match c {
        Some(c) => Some(c@),
        None => None,
    }
}

fn copy_bytes(b: &Vec<u8>) -> (r: Vec<u8>)
    ensures
        r@ == b@,
{
    let mut out: Vec<u8> = Vec::new();
    let mut i: usize = 0;
    while i < b.len()
        invariant
            i <= b.len(),
            out@ == b@.subrange(0, i as int),
        decreases b.len() - i,
    {
        out.push(b[i]);
        i = i + 1;
    }
    assert(b@.subrange(0, b@.len() as int) =~= b@);
    out
}

impl KeyValue {
    pub fn copy(&self) -> (r: KeyValue)
        ensures
            r@ == self@,
    {
        match self {
            KeyValue::S(s) => KeyValue::S(s.clone()),
            KeyValue::N(n) => KeyValue::N(n.clone()),
            KeyValue::B(b) => KeyValue::B(copy_bytes(b)),
        }
    }
}

impl Cursor {
    /// A copy with the same key attributes, in the same order.
    pub fn copy(&self) -> (r: Cursor)
        ensures
            r@ == self@,
    {
        let mut parts: Vec<KeyPart> = Vec::new();
        let mut i: usize = 0;
        while i < self.parts.len()
            invariant
                i <= self.parts.len(),
                parts@.len() == i,
                forall|k: int|
                    0 <= k < i ==> (#[trigger] parts@[k]).name@ == self.parts@[k].name@
                        && parts@[k].value@ == self.parts@[k].value@,
            decreases self.parts.len() - i,
        {
            let part = &self.parts[i];
            parts.push(KeyPart { name: part.name.clone(), value: part.value.copy() });
            i = i + 1;
        }
        let r = Cursor { parts };
        assert(r@ =~= self@);
        r
    }
}

pub fn copy_cursor(c: &Option<Cursor>) -> (r: Option<Cursor>)
    ensures
        cursor_view(r) == cursor_view(*c),
{
    match c {
        Some(c) => Some(c.copy()),
        None => None,
    }
}

/// Work for the background fetch worker.
pub enum FetchRequest {
    Tables,
    TableData(String),
    NextBatchTableData(String, Option<Cursor>),
    GetApproximateItemCount(String),
    DescribeTable(String),
    QueryTableByPk(String, String, String),
    QueryTableByPkSk(String, String, String, String, String),
}

/// What the fetch worker hands back. A page names the table it was read
/// from and carries the cursor to resume from; no cursor means that no page
/// follows.
pub enum FetchResponse {
    Tables(Vec<String>),
    TableData(String, Vec<String>, Option<Cursor>),
    NextBatchTableData(String, Vec<String>, Option<Cursor>),
    ApproximateTableDataCount(i64),
    TableDescription(Option<String>, Option<String>),
}

} // verus!
