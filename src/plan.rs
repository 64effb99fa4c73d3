use vstd::prelude::*;
use crate::element::{Direction, Id, KeyId};
use crate::operator::EdgeExpandOperator;
use crate::stream::{GraphError, QueryParams, ReadGraph};

verus! {

/// A tag reference of the query plan: by name, or by its resolved identifier.
#[derive(Clone, Debug, PartialEq, Eq)]
pub enum NameOrId {
    Name(String),
    Id(KeyId),
}

/// The plan node of an expansion step.
#[derive(Clone, Debug, PartialEq, Eq)]
pub struct EdgeExpand {
    /// The tag of the entry to expand from; `None` is the head.
    pub v_tag: Option<NameOrId>,
    /// The tag to store matches under.
    pub alias: Option<NameOrId>,
    /// The encoded direction: 0 out, 1 in, 2 both.
    pub direction: i32,
    pub params: QueryParams,
    /// Whether the step yields edges rather than vertices.
    pub is_edge: bool,
}

/// A failure to build the operator of a plan node.
#[derive(Clone, Copy, Debug, PartialEq, Eq, Structural)]
pub enum FnGenError {
    /// A tag reference is a name that was never resolved to an identifier.
    UnresolvedTag,
    /// The direction code names no direction.
    UnknownDirection(i32),
    /// No graph store is registered.
    NullGraphError,
    /// The graph store refused to prepare the exploration.
    Graph(GraphError),
}

pub open spec fn tag_of(t: Option<NameOrId>) -> Option<Option<KeyId>> {
    match t {
        None => Some(None),
        Some(NameOrId::Id(i)) => Some(Some(i)),
        Some(NameOrId::Name(_)) => None,
    }
}

pub open spec fn direction_of(code: i32) -> Option<Direction> {
    if code == 0 {
        Some(Direction::Out)
    } else if code == 1 {
        Some(Direction::In)
    } else if code == 2 {
        Some(Direction::Both)
    } else {
        None
    }
}

/// The three ways of expanding, fixed when the operator is built.
#[derive(Clone, Copy, Debug, PartialEq, Eq, Structural)]
pub enum ExpandMode {
    /// Edges are the result.
    Edges,
    /// Edges are explored so that their filter applies, then turned into vertices.
    FilteredVertices,
    /// Vertices are explored directly.
    Vertices,
}

pub open spec fn mode_of(is_edge: bool, has_filter: bool) -> ExpandMode {
    if is_edge {
        ExpandMode::Edges
    } else if has_filter {
        ExpandMode::FilteredVertices
    } else {
        ExpandMode::Vertices
    }
}

pub fn select_mode(is_edge: bool, has_filter: bool) -> (r: ExpandMode)
    ensures
        r == mode_of(is_edge, has_filter),
{
    if is_edge {
        ExpandMode::Edges
    } else if has_filter {
        ExpandMode::FilteredVertices
    } else {
        ExpandMode::Vertices
    }
}

fn resolve_tag(t: &Option<NameOrId>) -> (r: Result<Option<KeyId>, FnGenError>)
    ensures
        match tag_of(*t) {
            Some(k) => r == Ok::<Option<KeyId>, FnGenError>(k),
            None => r == Err::<Option<KeyId>, FnGenError>(FnGenError::UnresolvedTag),
        },
{
    match t {
        None => Ok(None),
        Some(NameOrId::Id(i)) => Ok(Some(*i)),
        Some(NameOrId::Name(_)) => Err(FnGenError::UnresolvedTag),
    }
}

pub fn decode_direction(code: i32) -> (r: Result<Direction, FnGenError>)
    ensures
        match direction_of(code) {
            Some(d) => r == Ok::<Direction, FnGenError>(d),
            None => r == Err::<Direction, FnGenError>(FnGenError::UnknownDirection(code)),
        },
{
    if code == 0 {
        Ok(Direction::Out)
    } else if code == 1 {
        Ok(Direction::In)
    } else if code == 2 {
        Ok(Direction::Both)
    } else {
        Err(FnGenError::UnknownDirection(code))
    }
}

impl EdgeExpand {
    /// The first failure met while reading the node, in the order start tag,
    /// alias, direction.
    pub open spec fn config_error(&self) -> Option<FnGenError> {
        if tag_of(self.v_tag) is None || tag_of(self.alias) is None {
            Some(FnGenError::UnresolvedTag)
        } else if direction_of(self.direction) is None {
            Some(FnGenError::UnknownDirection(self.direction))
        } else {
            None
        }
    }

    pub open spec fn mode(&self) -> ExpandMode {
        mode_of(self.is_edge, self.params.filter is Some)
    }

    /// `op` is configured as this node asks, with a statement of `graph`.
    pub open spec fn built<G: ReadGraph>(&self, graph: G, op: EdgeExpandOperator<G::Stmt>) -> bool {
        let d = direction_of(self.direction)->Some_0;
        &&& self.config_error() is None
        &&& op.start_tag() == tag_of(self.v_tag)->Some_0
        &&& op.alias() == tag_of(self.alias)->Some_0
        &&& op.getv() == (self.mode() == ExpandMode::FilteredVertices)
        &&& forall|id: Id| #[trigger]
            op.answer(id) == if self.mode() == ExpandMode::Vertices {
                graph.explore_vertices(d, self.params, id)
            } else {
                graph.explore_edges(d, self.params, id)
            }
    }

    /// Builds the operator of this node on `graph`, or fails at once.
    pub fn gen_flat_map<G: ReadGraph>(self, graph: Option<&G>) -> (r: Result<EdgeExpandOperator<G::Stmt>, FnGenError>)
        ensures
            self.config_error() matches Some(e) ==> r == Err::<EdgeExpandOperator<G::Stmt>, FnGenError>(e),
            self.config_error() is None && graph is None ==> r == Err::<EdgeExpandOperator<G::Stmt>, FnGenError>(
                FnGenError::NullGraphError,
            ),
            self.config_error() is None && graph is Some ==> match r {
                Ok(op) => self.built(*graph->Some_0, op),
                Err(e) => e is Graph,
            },
    {
        let start_v_tag = match resolve_tag(&self.v_tag) {
            Ok(t) => t,
            Err(e) => {
                return Err(e);
            },
        };
        let edge_or_end_v_tag = match resolve_tag(&self.alias) {
            Ok(t) => t,
            Err(e) => {
                return Err(e);
            },
        };
        let direction = match decode_direction(self.direction) {
            Ok(d) => d,
            Err(e) => {
                return Err(e);
            },
        };
        let graph = match graph {
            Some(g) => g,
            None => {
                return Err(FnGenError::NullGraphError);
            },
        };
        let query_params = self.params;
        match select_mode(self.is_edge, query_params.filter.is_some()) {
            ExpandMode::Edges => match graph.prepare_explore_edge(direction, &query_params) {
                Ok(stmt) => Ok(EdgeExpandOperator::new(start_v_tag, edge_or_end_v_tag, stmt, false)),
                Err(e) => Err(FnGenError::Graph(e)),
            },
            ExpandMode::FilteredVertices => match graph.prepare_explore_edge(direction, &query_params) {
                Ok(stmt) => Ok(EdgeExpandOperator::new(start_v_tag, edge_or_end_v_tag, stmt, true)),
                Err(e) => Err(FnGenError::Graph(e)),
            },
            ExpandMode::Vertices => match graph.prepare_explore_vertex(direction, &query_params) {
                Ok(stmt) => Ok(EdgeExpandOperator::new(start_v_tag, edge_or_end_v_tag, stmt, false)),
                Err(e) => Err(FnGenError::Graph(e)),
            },
        }
    }
}

/// Building twice from one node on one graph configures the same operator:
/// the same tags, the same mode, and statements that select the same matches.
pub proof fn lemma_build_deterministic<G: ReadGraph>(
    node: EdgeExpand,
    graph: G,
    a: EdgeExpandOperator<G::Stmt>,
    b: EdgeExpandOperator<G::Stmt>,
)
    requires
        node.built(graph, a),
        node.built(graph, b),
    ensures
        a.start_tag() == b.start_tag(),
        a.alias() == b.alias(),
        a.getv() == b.getv(),
        forall|id: Id| #[trigger] a.answer(id) == b.answer(id),
{
    assert forall|id: Id| #[trigger] a.answer(id) == b.answer(id) by {
        assert(a.answer(id) == b.answer(id));
    }
}

} // verus!
