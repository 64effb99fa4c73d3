use vstd::prelude::*;
use crate::element::{
    neighbor, neighbor_of, Direction, GraphObject, Id, KeyId, ObjectModel,
};

verus! {

/// A failure reported by the graph store.
#[derive(Clone, Copy, Debug, PartialEq, Eq, Structural)]
pub enum GraphError {
    /// The identifier does not name anything in the store.
    UnknownId(Id),
    /// The store cannot serve this request now.
    Unavailable,
    /// The store does not support the requested exploration.
    Unsupported,
}

/// A predicate over properties: the element has property `key` equal to `value`.
#[derive(Clone, Copy, Debug, PartialEq, Eq, Structural)]
pub struct PropertyFilter {
    pub key: KeyId,
    pub value: i64,
}

/// Plan-derived parameters of an exploration.
#[derive(Clone, Copy, Debug, PartialEq, Eq, Structural)]
pub struct QueryParams {
    pub filter: Option<PropertyFilter>,
    pub limit: Option<usize>,
}

/// A lazy sequence of matches handed out by the graph store.
pub trait MatchStream {
    /// The matches still to come, in order.
    spec fn rest(&self) -> Seq<ObjectModel>;

    /// Produces the next match, and only that one.
    fn next_match(&mut self) -> (r: Option<GraphObject>)
        ensures
            old(self).rest().len() == 0 ==> r is None && final(self).rest() == old(self).rest(),
            old(self).rest().len() > 0 ==> (r matches Some(o) && o@ == old(self).rest()[0]
                && final(self).rest() == old(self).rest().drop_first()),
    ;
}

/// A prepared exploration: for a source identifier, the matches adjacent to it.
pub trait Statement {
    type Matches: MatchStream;

    /// What the store holds for the source `id` under this statement.
    spec fn answer(&self, id: Id) -> Seq<ObjectModel>;

    /// Starts the exploration from `id`; the matches are produced on demand.
    fn exec(&self, id: Id) -> (r: Result<Self::Matches, GraphError>)
        ensures
            r matches Ok(m) ==> m.rest() == self.answer(id),
    ;
}

/// A graph store that prepares explorations.
pub trait ReadGraph {
    type Stmt: Statement;

    /// The edges adjacent to `id`, oriented away from it.
    spec fn explore_edges(&self, dir: Direction, params: QueryParams, id: Id) -> Seq<ObjectModel>;

    /// The vertices adjacent to `id`.
    spec fn explore_vertices(&self, dir: Direction, params: QueryParams, id: Id) -> Seq<ObjectModel>;

    fn prepare_explore_edge(&self, dir: Direction, params: &QueryParams) -> (r: Result<Self::Stmt, GraphError>)
        ensures
            r matches Ok(s) ==> forall|id: Id| #[trigger] s.answer(id) == self.explore_edges(dir, *params, id),
            r matches Ok(s) ==> forall|id: Id| all_edges(#[trigger] s.answer(id)),
    ;

    fn prepare_explore_vertex(&self, dir: Direction, params: &QueryParams) -> (r: Result<Self::Stmt, GraphError>)
        ensures
            r matches Ok(s) ==> forall|id: Id| #[trigger] s.answer(id) == self.explore_vertices(dir, *params, id),
    ;
}

pub open spec fn all_edges(s: Seq<ObjectModel>) -> bool {
    forall|i: int| 0 <= i < s.len() ==> s[i] is E
}

/// What a match becomes when only the vertex at the far end is wanted.
pub open spec fn neighbor_object(o: ObjectModel) -> ObjectModel {
    match o {
        ObjectModel::E(e) => ObjectModel::V(neighbor_of(e)),
        ObjectModel::V(v) => ObjectModel::V(v),
    }
}

pub open spec fn neighbors(s: Seq<ObjectModel>) -> Seq<ObjectModel> {
    s.map_values(|o: ObjectModel| neighbor_object(o))
}

/// The matches of an edge stream turned into the vertices at their far ends,
/// one at a time, without any lookup in the store.
pub struct NeighborStream<M: MatchStream> {
    pub inner: M,
}

impl<M: MatchStream> MatchStream for NeighborStream<M> {
    open spec fn rest(&self) -> Seq<ObjectModel> {
        neighbors(self.inner.rest())
    }

    fn next_match(&mut self) -> (r: Option<GraphObject>) {
        let ghost before = self.inner.rest();
        match self.inner.next_match() {
            None => None,
            Some(GraphObject::E(e)) => {
                assert(neighbors(self.inner.rest()) =~= neighbors(before).drop_first());
                Some(GraphObject::V(neighbor(&e)))
            },
            // A vertex needs no conversion. Statements prepared for edge
            // exploration yield edges only, so the operator never lands here.
            Some(GraphObject::V(v)) => {
                assert(neighbors(self.inner.rest()) =~= neighbors(before).drop_first());
                Some(GraphObject::V(v))
            },
        }
    }
}

/// A stream over matches already held in memory.
pub struct VecStream {
    items: Vec<GraphObject>,
    pos: usize,
}

impl VecStream {
    #[verifier::type_invariant]
    spec fn wf(&self) -> bool {
        self.pos <= self.items@.len()
    }

    pub fn new(items: Vec<GraphObject>) -> (r: VecStream)
        ensures
            r.rest() == crate::element::models_of(items@),
    {
        let r = VecStream { items, pos: 0 };
        assert(r.rest() =~= crate::element::models_of(items@));
        r
    }
}

impl MatchStream for VecStream {
    closed spec fn rest(&self) -> Seq<ObjectModel> {
        crate::element::models_of(self.items@.subrange(self.pos as int, self.items@.len() as int))
    }

    fn next_match(&mut self) -> (r: Option<GraphObject>) {
        proof {
            use_type_invariant(&*self);
        }
        if self.pos >= self.items.len() {
            None
        } else {
            let o = self.items[self.pos].clone();
            self.pos = self.pos + 1;
            assert(self.rest() =~= old(self).rest().drop_first());
            Some(o)
        }
    }
}

} // verus!
