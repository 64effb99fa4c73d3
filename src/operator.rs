use vstd::prelude::*;
use crate::element::{entry_of, neighbor_of, Entry, EntryModel, Id, KeyId, ObjectModel, VertexModel};
use crate::expand::{
    expand_all, path_extend_all, RecordExpandIter, RecordPathExpandIter, RecordStream,
};
use crate::record::Record;
use crate::stream::{
    all_edges, neighbors, GraphError, MatchStream, NeighborStream, Statement,
};

verus! {

/// A per-record failure of an expansion.
#[derive(Clone, Copy, Debug, PartialEq, Eq, Structural)]
pub enum FnExecError {
    /// The record has no entry under the start tag.
    GetTagError,
    /// The start entry is a path with no element.
    PathEndMissing,
    /// The start entry is neither a vertex nor a path.
    NotExpandable,
    /// The graph store failed to explore from the source.
    Graph(GraphError),
}

/// Expands the vertex (or the end of the path) under a start tag along the
/// edges that a prepared statement selects.
pub struct EdgeExpandOperator<S: Statement> {
    start_v_tag: Option<KeyId>,
    edge_or_end_v_tag: Option<KeyId>,
    stmt: S,
    getv_flag: bool,
}

impl<S: Statement> EdgeExpandOperator<S> {
    #[verifier::type_invariant]
    spec fn wf(&self) -> bool {
        self.getv_flag ==> forall|id: Id| all_edges(#[trigger] self.stmt.answer(id))
    }

    /// The tag of the entry that expansion starts from.
    pub closed spec fn start_tag(&self) -> Option<KeyId> {
        self.start_v_tag
    }

    /// The tag that matches are stored under.
    pub closed spec fn alias(&self) -> Option<KeyId> {
        self.edge_or_end_v_tag
    }

    /// Whether edge matches are turned into the vertices at their far ends.
    pub closed spec fn getv(&self) -> bool {
        self.getv_flag
    }

    /// The matches that the statement selects for the source `id`.
    pub closed spec fn answer(&self, id: Id) -> Seq<ObjectModel> {
        self.stmt.answer(id)
    }

    /// Where `getv` is set, the statement must select edges only.
    pub fn new(start_v_tag: Option<KeyId>, edge_or_end_v_tag: Option<KeyId>, stmt: S, getv_flag: bool) -> (r: Self)
        requires
            getv_flag ==> forall|id: Id| all_edges(#[trigger] stmt.answer(id)),
        ensures
            r.start_tag() == start_v_tag,
            r.alias() == edge_or_end_v_tag,
            r.getv() == getv_flag,
            forall|id: Id| #[trigger] r.answer(id) == stmt.answer(id),
    {
        EdgeExpandOperator { start_v_tag, edge_or_end_v_tag, stmt, getv_flag }
    }

    /// The identifier to explore from: the start vertex, or the end of the
    /// start path.
    pub open spec fn source(&self, input: Map<Option<KeyId>, EntryModel>) -> Result<Id, FnExecError> {
        if !input.contains_key(self.start_tag()) {
            Err(FnExecError::GetTagError)
        } else {
            match input[self.start_tag()] {
                EntryModel::Vertex(v) => Ok(v.id),
                EntryModel::Path(p) => if p.len() == 0 {
                    Err(FnExecError::PathEndMissing)
                } else {
                    Ok(p.last().id())
                },
                _ => Err(FnExecError::NotExpandable),
            }
        }
    }

    /// The records made from `input` for the matches `ms` of its source.
    pub open spec fn expansion(
        &self,
        input: Map<Option<KeyId>, EntryModel>,
        ms: Seq<ObjectModel>,
    ) -> Seq<Map<Option<KeyId>, EntryModel>> {
        match input[self.start_tag()] {
            EntryModel::Path(p) => path_extend_all(input, self.start_tag(), p, ms),
            _ => expand_all(input, self.alias(), if self.getv() { neighbors(ms) } else { ms }),
        }
    }

    /// What expanding `input` yields, where the store answers as the statement says.
    pub open spec fn outcome(&self, input: Map<Option<KeyId>, EntryModel>) -> Result<
        Seq<Map<Option<KeyId>, EntryModel>>,
        FnExecError,
    > {
        match self.source(input) {
            Ok(id) => Ok(self.expansion(input, self.answer(id))),
            Err(e) => Err(e),
        }
    }

    /// Finds the identifier to explore from.
    pub fn locate(&self, input: &Record) -> (r: Result<Id, FnExecError>)
        ensures
            r == self.source(input@),
    {
        match input.get(self.start_v_tag) {
            None => Err(FnExecError::GetTagError),
            Some(Entry::Vertex(v)) => Ok(v.id),
            Some(Entry::Path(graph_path)) => match graph_path.get_path_end() {
                Some(path_end) => Ok(path_end.id()),
                None => Err(FnExecError::PathEndMissing),
            },
            Some(_) => Err(FnExecError::NotExpandable),
        }
    }

    /// Turns what the store returned for the source of `input` into the lazy
    /// output: the store's failure, or one record per match.
    pub fn expand_found(&self, input: Record, found: Result<S::Matches, GraphError>) -> (r: Result<
        RecordStream<S::Matches>,
        FnExecError,
    >)
        ensures
            self.source(input@) matches Err(e) ==> r == Err::<RecordStream<S::Matches>, _>(e),
            self.source(input@) is Ok ==> match found {
                Err(e) => r == Err::<RecordStream<S::Matches>, _>(FnExecError::Graph(e)),
                Ok(m) => r matches Ok(s) && s.pending() == self.expansion(input@, m.rest()),
            },
    {
        let curr_path = match input.get(self.start_v_tag) {
            None => {
                return Err(FnExecError::GetTagError);
            },
            Some(Entry::Vertex(_)) => None,
            Some(Entry::Path(graph_path)) => {
                if graph_path.elements.len() == 0 {
                    return Err(FnExecError::PathEndMissing);
                }
                Some(graph_path.clone())
            },
            Some(_) => {
                return Err(FnExecError::NotExpandable);
            },
        };
        let iter = match found {
            Ok(it) => it,
            Err(e) => {
                return Err(FnExecError::Graph(e));
            },
        };
        match curr_path {
            Some(path) => Ok(RecordStream::Path(RecordPathExpandIter::new(input, self.start_v_tag, path, iter))),
            None => if self.getv_flag {
                let children = NeighborStream { inner: iter };
                Ok(RecordStream::Neighbors(RecordExpandIter::new(input, self.edge_or_end_v_tag, children)))
            } else {
                Ok(RecordStream::Expand(RecordExpandIter::new(input, self.edge_or_end_v_tag, iter)))
            },
        }
    }

    /// Expands one record. The store is asked once; each match is read only
    /// when the next record is pulled.
    pub fn exec(&self, input: Record) -> (r: Result<RecordStream<S::Matches>, FnExecError>)
        ensures
            match r {
                Ok(s) => self.outcome(input@) == Ok::<_, FnExecError>(s.pending()),
                Err(FnExecError::Graph(_)) => self.outcome(input@) is Ok,
                Err(e) => self.outcome(input@) == Err::<Seq<Map<Option<KeyId>, EntryModel>>, _>(e),
            },
    {
        let id = match self.locate(&input) {
            Ok(id) => id,
            Err(e) => {
                return Err(e);
            },
        };
        let found = self.stmt.exec(id);
        self.expand_found(input, found)
    }
}

} // verus!

verus! {

/// Expanding from a vertex yields one record per match, in the order of the
/// matches, each a copy of the input with the match stored under the alias.
pub proof fn lemma_expand_vertex<S: Statement>(
    op: EdgeExpandOperator<S>,
    input: Map<Option<KeyId>, EntryModel>,
    v: VertexModel,
    t: KeyId,
)
    requires
        input.contains_key(op.start_tag()),
        input[op.start_tag()] == EntryModel::Vertex(v),
        !op.getv(),
        op.alias() == Some(t),
    ensures
        op.outcome(input) is Ok,
        op.outcome(input)->Ok_0.len() == op.answer(v.id).len(),
        forall|i: int| 0 <= i < op.answer(v.id).len() ==>
            #[trigger] op.outcome(input)->Ok_0[i] == input.insert(Some(t), entry_of(op.answer(v.id)[i])),
{
}

/// Without an alias, each record of a vertex expansion is the input itself:
/// no tag is added, one record per match.
pub proof fn lemma_expand_vertex_without_alias<S: Statement>(
    op: EdgeExpandOperator<S>,
    input: Map<Option<KeyId>, EntryModel>,
    v: VertexModel,
)
    requires
        input.contains_key(op.start_tag()),
        input[op.start_tag()] == EntryModel::Vertex(v),
        op.alias() is None,
    ensures
        op.outcome(input) is Ok,
        op.outcome(input)->Ok_0.len() == op.answer(v.id).len(),
        forall|i: int| 0 <= i < op.outcome(input)->Ok_0.len() ==>
            #[trigger] op.outcome(input)->Ok_0[i] == input,
{
}

/// Expanding from a path yields, per match, the input with the path under the
/// start tag extended by that match.
pub proof fn lemma_expand_path<S: Statement>(
    op: EdgeExpandOperator<S>,
    input: Map<Option<KeyId>, EntryModel>,
    p: Seq<ObjectModel>,
)
    requires
        input.contains_key(op.start_tag()),
        input[op.start_tag()] == EntryModel::Path(p),
        p.len() > 0,
    ensures
        op.outcome(input) is Ok,
        op.outcome(input)->Ok_0.len() == op.answer(p.last().id()).len(),
        forall|i: int| 0 <= i < op.answer(p.last().id()).len() ==>
            #[trigger] op.outcome(input)->Ok_0[i] == input.insert(
                op.start_tag(),
                EntryModel::Path(p.push(op.answer(p.last().id())[i])),
            ),
{
}

/// In the filtered-vertex mode, each record holds the vertex at the far end of
/// the matched edge, with no properties loaded.
pub proof fn lemma_expand_neighbors<S: Statement>(
    op: EdgeExpandOperator<S>,
    input: Map<Option<KeyId>, EntryModel>,
    v: VertexModel,
    t: KeyId,
)
    requires
        input.contains_key(op.start_tag()),
        input[op.start_tag()] == EntryModel::Vertex(v),
        op.getv(),
        op.alias() == Some(t),
        all_edges(op.answer(v.id)),
    ensures
        op.outcome(input) is Ok,
        op.outcome(input)->Ok_0.len() == op.answer(v.id).len(),
        forall|i: int| 0 <= i < op.answer(v.id).len() ==>
            #[trigger] op.outcome(input)->Ok_0[i] == input.insert(
                Some(t),
                EntryModel::Vertex(VertexModel {
                    id: op.answer(v.id)[i]->E_0.other_id(),
                    label: op.answer(v.id)[i]->E_0.other_label(),
                    details: Seq::empty(),
                }),
            ),
{
    assert forall|i: int| 0 <= i < op.answer(v.id).len() implies
        #[trigger] neighbors(op.answer(v.id))[i] == ObjectModel::V(neighbor_of(op.answer(v.id)[i]->E_0)) by {
        assert(op.answer(v.id)[i] is E);
    }
}

/// A record without an entry under the start tag fails with a tag error and
/// yields nothing.
pub proof fn lemma_missing_tag<S: Statement>(op: EdgeExpandOperator<S>, input: Map<Option<KeyId>, EntryModel>)
    requires
        !input.contains_key(op.start_tag()),
    ensures
        op.outcome(input) == Err::<Seq<Map<Option<KeyId>, EntryModel>>, FnExecError>(FnExecError::GetTagError),
{
}

} // verus!
