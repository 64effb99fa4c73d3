use vstd::prelude::*;
use crate::element::{
    models_of, neighbor, Direction, Edge, EdgeModel, GraphObject, Id, ObjectModel, Property,
};
use crate::stream::{
    all_edges, neighbors, GraphError, QueryParams, ReadGraph, Statement, VecStream,
};

verus! {

pub open spec fn edge_models(s: Seq<Edge>) -> Seq<EdgeModel> {
    s.map_values(|e: Edge| e@)
}

/// `e` as seen from the side the expansion started at.
pub open spec fn oriented(e: EdgeModel, from_src: bool) -> EdgeModel {
    EdgeModel { from_src, ..e }
}

pub open spec fn passes(e: EdgeModel, params: QueryParams) -> bool {
    match params.filter {
        None => true,
        Some(f) => e.details.contains(Property { key: f.key, value: f.value }),
    }
}

/// The matches one edge gives for the source `id`: leaving it, then entering it.
pub open spec fn edge_matches(e: EdgeModel, dir: Direction, params: QueryParams, id: Id) -> Seq<ObjectModel> {
    let out = if dir != Direction::In && e.src_id == id && passes(e, params) {
        seq![ObjectModel::E(oriented(e, true))]
    } else {
        Seq::empty()
    };
    let inc = if dir != Direction::Out && e.dst_id == id && passes(e, params) {
        seq![ObjectModel::E(oriented(e, false))]
    } else {
        Seq::empty()
    };
    out + inc
}

pub open spec fn adjacent(es: Seq<EdgeModel>, dir: Direction, params: QueryParams, id: Id) -> Seq<ObjectModel>
    decreases es.len(),
{
    if es.len() == 0 {
        Seq::empty()
    } else {
        adjacent(es.drop_last(), dir, params, id) + edge_matches(es.last(), dir, params, id)
    }
}

pub open spec fn limited(s: Seq<ObjectModel>, limit: Option<usize>) -> Seq<ObjectModel> {
    match limit {
        Some(n) => if n < s.len() { s.take(n as int) } else { s },
        None => s,
    }
}

/// The edges of `es` adjacent to `id`, in store order, at most `limit` of them.
pub open spec fn explore(es: Seq<EdgeModel>, dir: Direction, params: QueryParams, id: Id) -> Seq<ObjectModel> {
    limited(adjacent(es, dir, params, id), params.limit)
}

proof fn lemma_adjacent_edges(es: Seq<EdgeModel>, dir: Direction, params: QueryParams, id: Id)
    ensures
        all_edges(adjacent(es, dir, params, id)),
    decreases es.len(),
{
    if es.len() > 0 {
        lemma_adjacent_edges(es.drop_last(), dir, params, id);
        let a = adjacent(es.drop_last(), dir, params, id);
        let b = edge_matches(es.last(), dir, params, id);
        assert forall|i: int| 0 <= i < (a + b).len() implies (a + b)[i] is E by {
            if i >= a.len() {
                assert((a + b)[i] == b[i - a.len()]);
            }
        }
    }
}

proof fn lemma_explore_edges(es: Seq<EdgeModel>, dir: Direction, params: QueryParams, id: Id)
    ensures
        all_edges(explore(es, dir, params, id)),
{
    lemma_adjacent_edges(es, dir, params, id);
}

/// A graph store held in memory: a list of edges, each with its properties.
/// Vertices are known through the edges that touch them and carry no
/// properties of their own.
pub struct MemGraph {
    pub edges: Vec<Edge>,
}

/// An exploration prepared on a `MemGraph`.
pub struct MemStatement {
    edges: Vec<Edge>,
    dir: Direction,
    params: QueryParams,
    vertices: bool,
}

fn copy_edges(edges: &Vec<Edge>) -> (r: Vec<Edge>)
    ensures
        edge_models(r@) == edge_models(edges@),
{
    let r = edges.clone();
    assert(edge_models(r@) =~= edge_models(edges@));
    r
}

fn has_property(details: &Vec<Property>, p: Property) -> (r: bool)
    ensures
        r == details@.contains(p),
{
    let mut i: usize = 0;
    while i < details.len()
        invariant
            i <= details@.len(),
            forall|j: int| 0 <= j < i ==> details@[j] != p,
        decreases details@.len() - i,
    {
        if details[i] == p {
            return true;
        }
        i = i + 1;
    }
    false
}

fn passes_filter(e: &Edge, params: &QueryParams) -> (r: bool)
    ensures
        r == passes(e@, *params),
{
    match params.filter {
        None => true,
        Some(f) => has_property(&e.details, Property { key: f.key, value: f.value }),
    }
}

fn oriented_edge(e: &Edge, from_src: bool) -> (r: GraphObject)
    ensures
        r@ == ObjectModel::E(oriented(e@, from_src)),
{
    let mut c = e.clone();
    c.from_src = from_src;
    GraphObject::E(c)
}

impl MemStatement {
    /// The matches for `id`, all of them held at once.
    fn matches_of(&self, id: Id) -> (r: Vec<GraphObject>)
        ensures
            models_of(r@) == explore(edge_models(self.edges@), self.dir, self.params, id),
    {
        let ghost es = edge_models(self.edges@);
        let mut out: Vec<GraphObject> = Vec::new();
        let mut i: usize = 0;
        while i < self.edges.len()
            invariant
                i <= self.edges@.len(),
                es == edge_models(self.edges@),
                models_of(out@) == adjacent(es.take(i as int), self.dir, self.params, id),
            decreases self.edges@.len() - i,
        {
            let e = &self.edges[i];
            let ghost prev = out@;
            let ok = passes_filter(e, &self.params);
            if self.dir != Direction::In && e.src_id == id && ok {
                out.push(oriented_edge(e, true));
            }
            if self.dir != Direction::Out && e.dst_id == id && ok {
                out.push(oriented_edge(e, false));
            }
            proof {
                assert(es.take(i + 1).drop_last() =~= es.take(i as int));
                assert(es.take(i + 1).last() == e@);
                assert(models_of(out@) =~= models_of(prev) + edge_matches(e@, self.dir, self.params, id));
            }
            i = i + 1;
        }
        assert(es.take(self.edges@.len() as int) =~= es);
        match self.params.limit {
            Some(n) => {
                if n < out.len() {
                    let ghost full = out@;
                    out.truncate(n);
                    assert(models_of(out@) =~= models_of(full).take(n as int));
                }
            },
            None => {},
        }
        out
    }
}

impl Statement for MemStatement {
    type Matches = VecStream;

    closed spec fn answer(&self, id: Id) -> Seq<ObjectModel> {
        let found = explore(edge_models(self.edges@), self.dir, self.params, id);
        if self.vertices { neighbors(found) } else { found }
    }

    fn exec(&self, id: Id) -> (r: Result<VecStream, GraphError>)
        ensures
            r is Ok,
    {
        let found = self.matches_of(id);
        if self.vertices {
            let mut out: Vec<GraphObject> = Vec::new();
            let mut i: usize = 0;
            while i < found.len()
                invariant
                    i <= found@.len(),
                    models_of(out@) == neighbors(models_of(found@)).take(i as int),
                decreases found@.len() - i,
            {
                let v = match &found[i] {
                    GraphObject::E(e) => GraphObject::V(neighbor(e)),
                    GraphObject::V(v) => GraphObject::V(v.clone()),
                };
                assert(v@ == crate::stream::neighbor_object(found@[i as int]@));
                let ghost prev = out@;
                out.push(v);
                assert(models_of(out@) =~= models_of(prev).push(v@));
                assert(models_of(out@) =~= neighbors(models_of(found@)).take(i + 1));
                i = i + 1;
            }
            assert(neighbors(models_of(found@)).take(found@.len() as int) =~= neighbors(models_of(found@)));
            Ok(VecStream::new(out))
        } else {
            Ok(VecStream::new(found))
        }
    }
}

impl ReadGraph for MemGraph {
    type Stmt = MemStatement;

    open spec fn explore_edges(&self, dir: Direction, params: QueryParams, id: Id) -> Seq<ObjectModel> {
        explore(edge_models(self.edges@), dir, params, id)
    }

    open spec fn explore_vertices(&self, dir: Direction, params: QueryParams, id: Id) -> Seq<ObjectModel> {
        neighbors(explore(edge_models(self.edges@), dir, params, id))
    }

    fn prepare_explore_edge(&self, dir: Direction, params: &QueryParams) -> (r: Result<MemStatement, GraphError>)
        ensures
            r is Ok,
    {
        let s = MemStatement { edges: copy_edges(&self.edges), dir, params: *params, vertices: false };
        proof {
            assert forall|id: Id| all_edges(#[trigger] s.answer(id)) by {
                lemma_explore_edges(edge_models(s.edges@), dir, *params, id);
            }
        }
        Ok(s)
    }

    fn prepare_explore_vertex(&self, dir: Direction, params: &QueryParams) -> (r: Result<MemStatement, GraphError>)
        ensures
            r is Ok,
    {
        Ok(MemStatement { edges: copy_edges(&self.edges), dir, params: *params, vertices: true })
    }
}

} // verus!
