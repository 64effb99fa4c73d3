use vstd::prelude::*;
use crate::element::{Entry, EntryModel, KeyId};

verus! {

broadcast use vstd::set::group_set_axioms;

/// An entry stored under a named tag.
#[derive(Debug, PartialEq, Eq)]
pub struct Column {
    pub tag: KeyId,
    pub entry: Entry,
}

impl Clone for Column {
    fn clone(&self) -> (r: Self)
        ensures
            r.tag == self.tag,
            r.entry@ == self.entry@,
    {
        Column { tag: self.tag, entry: self.entry.clone() }
    }
}

/// One row of traversal state: an optional head entry (the tag `None`) and
/// entries under named tags.
#[derive(Debug, PartialEq, Eq)]
pub struct Record {
    head: Option<Entry>,
    columns: Vec<Column>,
}

pub open spec fn tags_distinct(c: Seq<Column>) -> bool {
    forall|i: int, j: int| 0 <= i < j < c.len() ==> c[i].tag != c[j].tag
}

pub open spec fn has_tag(c: Seq<Column>, t: KeyId) -> bool {
    exists|i: int| 0 <= i < c.len() && c[i].tag == t
}

pub open spec fn index_of(c: Seq<Column>, t: KeyId) -> int {
    choose|i: int| 0 <= i < c.len() && c[i].tag == t
}

pub open spec fn columns_model(c: Seq<Column>) -> Map<KeyId, EntryModel> {
    Map::new(|t: KeyId| has_tag(c, t), |t: KeyId| c[index_of(c, t)].entry@)
}

proof fn lemma_index_of(c: Seq<Column>, i: int)
    requires
        tags_distinct(c),
        0 <= i < c.len(),
    ensures
        has_tag(c, c[i].tag),
        index_of(c, c[i].tag) == i,
{
    let t = c[i].tag;
    assert(has_tag(c, t));
    let j = index_of(c, t);
    assert(0 <= j < c.len() && c[j].tag == t);
}

/// Two column lists with the same tags at each position and the same entries
/// describe the same map.
proof fn lemma_columns_same(a: Seq<Column>, b: Seq<Column>)
    requires
        tags_distinct(a),
        a.len() == b.len(),
        forall|i: int| 0 <= i < a.len() ==> a[i].tag == b[i].tag && a[i].entry@ == b[i].entry@,
    ensures
        tags_distinct(b),
        forall|t: KeyId| has_tag(a, t) == has_tag(b, t),
        columns_model(a) == columns_model(b),
{
    assert forall|t: KeyId| has_tag(a, t) == has_tag(b, t) by {
        if has_tag(a, t) {
            let i = choose|i: int| 0 <= i < a.len() && a[i].tag == t;
            assert(b[i].tag == t);
        }
        if has_tag(b, t) {
            let i = choose|i: int| 0 <= i < b.len() && b[i].tag == t;
            assert(a[i].tag == t);
        }
    }
    assert forall|t: KeyId| has_tag(a, t) implies columns_model(a)[t] == columns_model(b)[t] by {
        let i = index_of(a, t);
        lemma_index_of(a, i);
        lemma_index_of(b, i);
    }
    assert(columns_model(a) =~= columns_model(b));
}

/// The map that a head entry and a list of columns describe; `None` is the head.
pub open spec fn record_model(head: Option<EntryModel>, c: Seq<Column>) -> Map<Option<KeyId>, EntryModel> {
    Map::new(
        |k: Option<KeyId>|
            match k {
                None => head is Some,
                Some(t) => has_tag(c, t),
            },
        |k: Option<KeyId>|
            match k {
                None => head->Some_0,
                Some(t) => columns_model(c)[t],
            },
    )
}

pub open spec fn head_model(head: Option<Entry>) -> Option<EntryModel> {
    match head {
        Some(e) => Some(e@),
        None => None,
    }
}

impl View for Record {
    type V = Map<Option<KeyId>, EntryModel>;

    closed spec fn view(&self) -> Map<Option<KeyId>, EntryModel> {
        record_model(head_model(self.head), self.columns@)
    }
}

impl Record {
    #[verifier::type_invariant]
    spec fn wf(&self) -> bool {
        tags_distinct(self.columns@)
    }
}

impl Clone for Record {
    fn clone(&self) -> (r: Self)
        ensures
            r@ == self@,
    {
        proof {
            use_type_invariant(self);
        }
        let head = match &self.head {
            Some(e) => Some(e.clone()),
            None => None,
        };
        let mut columns: Vec<Column> = Vec::new();
        let mut i: usize = 0;
        while i < self.columns.len()
            invariant
                i <= self.columns@.len(),
                columns@.len() == i,
                forall|j: int|
                    0 <= j < i ==> columns@[j].tag == self.columns@[j].tag
                        && columns@[j].entry@ == self.columns@[j].entry@,
            decreases self.columns@.len() - i,
        {
            columns.push(self.columns[i].clone());
            i = i + 1;
        }
        proof {
            lemma_columns_same(self.columns@, columns@);
        }
        let r = Record { head, columns };
        assert(r.head is Some ==> r.head->Some_0@ == self.head->Some_0@);
        assert(r@ =~= self@);
        r
    }
}

impl Record {
    /// A record with no entries.
    pub fn new() -> (r: Record)
        ensures
            r@ == Map::<Option<KeyId>, EntryModel>::empty(),
    {
        let r = Record { head: None, columns: Vec::new() };
        assert(r@ =~= Map::<Option<KeyId>, EntryModel>::empty());
        r
    }

    /// The entry under `tag`, where the record has one.
    pub fn get(&self, tag: Option<KeyId>) -> (r: Option<&Entry>)
        ensures
            r is Some == self@.contains_key(tag),
            r matches Some(e) ==> self@.contains_key(tag) && e@ == self@[tag],
    {
        proof {
            use_type_invariant(self);
        }
        match tag {
            None => self.head.as_ref(),
            Some(t) => {
                let mut i: usize = 0;
                while i < self.columns.len()
                    invariant
                        i <= self.columns@.len(),
                        forall|j: int| 0 <= j < i ==> self.columns@[j].tag != t,
                    ensures
                        i <= self.columns@.len(),
                        i < self.columns@.len() ==> self.columns@[i as int].tag == t,
                        forall|j: int| 0 <= j < i ==> self.columns@[j].tag != t,
                    decreases self.columns@.len() - i,
                {
                    if self.columns[i].tag == t {
                        break;
                    }
                    i = i + 1;
                }
                if i < self.columns.len() {
                    proof {
                        lemma_index_of(self.columns@, i as int);
                    }
                    Some(&self.columns[i].entry)
                } else {
                    None
                }
            },
        }
    }

    /// Stores `e` under `tag`, replacing what was there.
    pub fn insert(&mut self, tag: Option<KeyId>, e: Entry)
        ensures
            final(self)@ == old(self)@.insert(tag, e@),
    {
        let mut taken = Record::new();
        std::mem::swap(self, &mut taken);
        proof {
            use_type_invariant(&taken);
        }
        let ghost before = taken@;
        let Record { head, mut columns } = taken;
        let ghost old_cols = columns@;
        let ghost e_model = e@;
        match tag {
            None => {
                let r = Record { head: Some(e), columns };
                assert(r@ =~= before.insert(tag, e_model));
                *self = r;
            },
            Some(t) => {
                let mut i: usize = 0;
                while i < columns.len()
                    invariant
                        columns@ == old_cols,
                        tags_distinct(old_cols),
                        i <= old_cols.len(),
                        forall|j: int| 0 <= j < i ==> old_cols[j].tag != t,
                    ensures
                        i <= old_cols.len(),
                        i < old_cols.len() ==> old_cols[i as int].tag == t,
                        forall|j: int| 0 <= j < i ==> old_cols[j].tag != t,
                    decreases old_cols.len() - i,
                {
                    if columns[i].tag == t {
                        break;
                    }
                    i = i + 1;
                }
                if i < columns.len() {
                    columns.set(i, Column { tag: t, entry: e });
                } else {
                    columns.push(Column { tag: t, entry: e });
                }
                let ghost new_cols = columns@;
                proof {
                    assert(new_cols[i as int].tag == t && new_cols[i as int].entry@ == e_model);
                    assert(forall|j: int| 0 <= j < old_cols.len() && j != i ==> new_cols[j] == old_cols[j]);
                    assert forall|a: int, b: int| 0 <= a < b < new_cols.len() implies
                        new_cols[a].tag != new_cols[b].tag by {
                        if a != i && b != i {
                            assert(new_cols[a] == old_cols[a]);
                            assert(new_cols[b] == old_cols[b]);
                        }
                    }
                    lemma_index_of(new_cols, i as int);
                    assert forall|u: KeyId| u != t implies has_tag(new_cols, u) == has_tag(old_cols, u)
                        && (has_tag(old_cols, u) ==> columns_model(new_cols)[u] == columns_model(old_cols)[u]) by {
                        if has_tag(old_cols, u) {
                            let j = choose|j: int| 0 <= j < old_cols.len() && old_cols[j].tag == u;
                            lemma_index_of(old_cols, j);
                            assert(new_cols[j].tag == u);
                            lemma_index_of(new_cols, j);
                        }
                        if has_tag(new_cols, u) {
                            let j = choose|j: int| 0 <= j < new_cols.len() && new_cols[j].tag == u;
                            assert(old_cols[j].tag == u);
                        }
                    }
                }
                let r = Record { head, columns };
                assert(r@ =~= before.insert(tag, e_model));
                *self = r;
            },
        }
    }
}

} // verus!
