use vstd::prelude::*;
use crate::element::{entry_of, Entry, EntryModel, GraphPath, KeyId, ObjectModel};
use crate::record::Record;
use crate::stream::{MatchStream, NeighborStream};

verus! {

/// The record made from `origin` for one match: the match stored under `tag`,
/// or `origin` as it is where there is no tag.
pub open spec fn expanded(
    origin: Map<Option<KeyId>, EntryModel>,
    tag: Option<KeyId>,
    m: ObjectModel,
) -> Map<Option<KeyId>, EntryModel> {
    match tag {
        Some(t) => origin.insert(Some(t), entry_of(m)),
        None => origin,
    }
}

pub open spec fn expand_all(
    origin: Map<Option<KeyId>, EntryModel>,
    tag: Option<KeyId>,
    ms: Seq<ObjectModel>,
) -> Seq<Map<Option<KeyId>, EntryModel>> {
    ms.map_values(|m: ObjectModel| expanded(origin, tag, m))
}

/// The record made from `origin` for one match: `path` extended by the match,
/// stored under `tag`.
pub open spec fn path_extended(
    origin: Map<Option<KeyId>, EntryModel>,
    tag: Option<KeyId>,
    path: Seq<ObjectModel>,
    m: ObjectModel,
) -> Map<Option<KeyId>, EntryModel> {
    origin.insert(tag, EntryModel::Path(path.push(m)))
}

pub open spec fn path_extend_all(
    origin: Map<Option<KeyId>, EntryModel>,
    tag: Option<KeyId>,
    path: Seq<ObjectModel>,
    ms: Seq<ObjectModel>,
) -> Seq<Map<Option<KeyId>, EntryModel>> {
    ms.map_values(|m: ObjectModel| path_extended(origin, tag, path, m))
}

/// Emits, for each match, a copy of the original record holding that match.
pub struct RecordExpandIter<M: MatchStream> {
    origin: Record,
    tag: Option<KeyId>,
    children: M,
}

impl<M: MatchStream> RecordExpandIter<M> {
    /// The records still to come, in order.
    pub closed spec fn pending(&self) -> Seq<Map<Option<KeyId>, EntryModel>> {
        expand_all(self.origin@, self.tag, self.children.rest())
    }

    pub fn new(origin: Record, tag: Option<KeyId>, children: M) -> (r: Self)
        ensures
            r.pending() == expand_all(origin@, tag, children.rest()),
    {
        RecordExpandIter { origin, tag, children }
    }

    /// Produces the next record; consumes exactly one match.
    pub fn next_record(&mut self) -> (r: Option<Record>)
        ensures
            old(self).pending().len() == 0 ==> r is None,
            old(self).pending().len() > 0 ==> (r matches Some(x) && x@ == old(self).pending()[0]
                && final(self).pending() == old(self).pending().drop_first()),
    {
        let ghost before = self.children.rest();
        match self.children.next_match() {
            None => None,
            Some(m) => {
                let mut record = self.origin.clone();
                match self.tag {
                    Some(t) => record.insert(Some(t), Entry::from_object(m)),
                    None => {},
                }
                assert(self.pending() =~= expand_all(self.origin@, self.tag, before).drop_first());
                Some(record)
            },
        }
    }
}

/// Emits, for each match, a copy of the original record whose path is
/// extended by that match.
pub struct RecordPathExpandIter<M: MatchStream> {
    origin: Record,
    tag: Option<KeyId>,
    curr_path: GraphPath,
    children: M,
}

impl<M: MatchStream> RecordPathExpandIter<M> {
    /// The records still to come, in order.
    pub closed spec fn pending(&self) -> Seq<Map<Option<KeyId>, EntryModel>> {
        path_extend_all(self.origin@, self.tag, self.curr_path@, self.children.rest())
    }

    pub fn new(origin: Record, tag: Option<KeyId>, curr_path: GraphPath, children: M) -> (r: Self)
        ensures
            r.pending() == path_extend_all(origin@, tag, curr_path@, children.rest()),
    {
        RecordPathExpandIter { origin, tag, curr_path, children }
    }

    /// Produces the next record; consumes exactly one match.
    pub fn next_record(&mut self) -> (r: Option<Record>)
        ensures
            old(self).pending().len() == 0 ==> r is None,
            old(self).pending().len() > 0 ==> (r matches Some(x) && x@ == old(self).pending()[0]
                && final(self).pending() == old(self).pending().drop_first()),
    {
        let ghost before = self.children.rest();
        match self.children.next_match() {
            None => None,
            Some(m) => {
                let mut record = self.origin.clone();
                let mut path = self.curr_path.clone();
                path.append(m);
                record.insert(self.tag, Entry::Path(path));
                assert(self.pending() =~= path_extend_all(
                    self.origin@,
                    self.tag,
                    self.curr_path@,
                    before,
                ).drop_first());
                Some(record)
            },
        }
    }
}

/// The lazy output of one expansion.
pub enum RecordStream<M: MatchStream> {
    /// Matches stored as they come.
    Expand(RecordExpandIter<M>),
    /// Edge matches stored as the vertices at their far ends.
    Neighbors(RecordExpandIter<NeighborStream<M>>),
    /// Matches appended to a path.
    Path(RecordPathExpandIter<M>),
}

impl<M: MatchStream> RecordStream<M> {
    /// The records still to come, in order.
    pub open spec fn pending(&self) -> Seq<Map<Option<KeyId>, EntryModel>> {
        match self {
            RecordStream::Expand(it) => it.pending(),
            RecordStream::Neighbors(it) => it.pending(),
            RecordStream::Path(it) => it.pending(),
        }
    }

    /// Produces the next record; consumes exactly one match.
    pub fn next_record(&mut self) -> (r: Option<Record>)
        ensures
            old(self).pending().len() == 0 ==> r is None,
            old(self).pending().len() > 0 ==> (r matches Some(x) && x@ == old(self).pending()[0]
                && final(self).pending() == old(self).pending().drop_first()),
    {
        match self {
            RecordStream::Expand(it) => it.next_record(),
            RecordStream::Neighbors(it) => it.next_record(),
            RecordStream::Path(it) => it.next_record(),
        }
    }

    /// Drains the stream; the records come in the order of the matches.
    pub fn collect_records(self) -> (r: Vec<Record>)
        ensures
            r@.len() == self.pending().len(),
            forall|i: int| 0 <= i < r@.len() ==> #[trigger] r@[i]@ == self.pending()[i],
    {
        let mut s = self;
        let mut out: Vec<Record> = Vec::new();
        let ghost all = self.pending();
        loop
            invariant
                all == self.pending(),
                out@.len() + s.pending().len() == all.len(),
                forall|i: int| 0 <= i < out@.len() ==> #[trigger] out@[i]@ == all[i],
                forall|i: int| 0 <= i < s.pending().len() ==> #[trigger] s.pending()[i] == all[out@.len() + i],
            decreases s.pending().len(),
        {
            let ghost k = out@.len();
            match s.next_record() {
                None => {
                    return out;
                },
                Some(x) => {
                    out.push(x);
                    assert(out@[k as int]@ == all[k as int]);
                },
            }
        }
    }
}

} // verus!
