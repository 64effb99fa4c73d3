use vstd::prelude::*;

verus! {

/// Identifier of a vertex or an edge in the graph store.
pub type Id = u64;

/// Identifier of a record tag (an alias of the query plan).
pub type KeyId = i32;

/// Identifier of a vertex or edge label.
pub type LabelId = i32;

/// A property of a hydrated vertex or edge.
#[derive(Clone, Copy, Debug, PartialEq, Eq, Structural)]
pub struct Property {
    pub key: KeyId,
    pub value: i64,
}

/// Direction in which edges are followed from the source vertex.
#[derive(Clone, Copy, Debug, PartialEq, Eq, Structural)]
pub enum Direction {
    Out,
    In,
    Both,
}

#[derive(Debug, PartialEq, Eq)]
pub struct Vertex {
    pub id: Id,
    pub label: Option<LabelId>,
    /// Properties loaded from the store; empty when the vertex was not hydrated.
    pub details: Vec<Property>,
}

pub struct VertexModel {
    pub id: Id,
    pub label: Option<LabelId>,
    pub details: Seq<Property>,
}

impl View for Vertex {
    type V = VertexModel;

    open spec fn view(&self) -> VertexModel {
        VertexModel { id: self.id, label: self.label, details: self.details@ }
    }
}

impl Clone for Vertex {
    fn clone(&self) -> (r: Self)
        ensures
            r@ == self@,
    {
        let details = self.details.clone();
        assert(details@ =~= self.details@);
        Vertex { id: self.id, label: self.label, details }
    }
}

impl Vertex {
    /// A vertex known only by its identifier and label, without properties.
    pub fn new(id: Id, label: Option<LabelId>) -> (r: Vertex)
        ensures
            r@ == (VertexModel { id, label, details: Seq::empty() }),
    {
        Vertex { id, label, details: Vec::new() }
    }
}

#[derive(Debug, PartialEq, Eq)]
pub struct Edge {
    pub id: Id,
    pub label: Option<LabelId>,
    pub src_id: Id,
    pub dst_id: Id,
    pub src_label: Option<LabelId>,
    pub dst_label: Option<LabelId>,
    /// Whether the expansion that produced this edge started at `src_id`.
    pub from_src: bool,
    pub details: Vec<Property>,
}

pub struct EdgeModel {
    pub id: Id,
    pub label: Option<LabelId>,
    pub src_id: Id,
    pub dst_id: Id,
    pub src_label: Option<LabelId>,
    pub dst_label: Option<LabelId>,
    pub from_src: bool,
    pub details: Seq<Property>,
}

impl View for Edge {
    type V = EdgeModel;

    open spec fn view(&self) -> EdgeModel {
        EdgeModel {
            id: self.id,
            label: self.label,
            src_id: self.src_id,
            dst_id: self.dst_id,
            src_label: self.src_label,
            dst_label: self.dst_label,
            from_src: self.from_src,
            details: self.details@,
        }
    }
}

impl Clone for Edge {
    fn clone(&self) -> (r: Self)
        ensures
            r@ == self@,
    {
        let details = self.details.clone();
        assert(details@ =~= self.details@);
        Edge {
            id: self.id,
            label: self.label,
            src_id: self.src_id,
            dst_id: self.dst_id,
            src_label: self.src_label,
            dst_label: self.dst_label,
            from_src: self.from_src,
            details,
        }
    }
}

impl EdgeModel {
    /// The endpoint at the far side of the expansion.
    pub open spec fn other_id(self) -> Id {
        if self.from_src { self.dst_id } else { self.src_id }
    }

    pub open spec fn other_label(self) -> Option<LabelId> {
        if self.from_src { self.dst_label } else { self.src_label }
    }
}

impl Edge {
    pub fn get_other_id(&self) -> (r: Id)
        ensures
            r == self@.other_id(),
    {
        if self.from_src { self.dst_id } else { self.src_id }
    }

    pub fn get_other_label(&self) -> (r: Option<LabelId>)
        ensures
            r == self@.other_label(),
    {
        if self.from_src { self.dst_label } else { self.src_label }
    }
}

/// The neighbor vertex reached over an edge: the far endpoint, without properties.
pub open spec fn neighbor_of(e: EdgeModel) -> VertexModel {
    VertexModel { id: e.other_id(), label: e.other_label(), details: Seq::empty() }
}

/// Builds the neighbor vertex of `e` from the edge alone, with no lookup in the store.
pub fn neighbor(e: &Edge) -> (r: Vertex)
    ensures
        r@ == neighbor_of(e@),
{
    Vertex::new(e.get_other_id(), e.get_other_label())
}

/// A vertex or an edge, as returned by the graph store.
#[derive(Debug, PartialEq, Eq)]
pub enum GraphObject {
    V(Vertex),
    E(Edge),
}

pub enum ObjectModel {
    V(VertexModel),
    E(EdgeModel),
}

impl View for GraphObject {
    type V = ObjectModel;

    open spec fn view(&self) -> ObjectModel {
        match self {
            GraphObject::V(v) => ObjectModel::V(v@),
            GraphObject::E(e) => ObjectModel::E(e@),
        }
    }
}

impl Clone for GraphObject {
    fn clone(&self) -> (r: Self)
        ensures
            r@ == self@,
    {
        match self {
            GraphObject::V(v) => GraphObject::V(v.clone()),
            GraphObject::E(e) => GraphObject::E(e.clone()),
        }
    }
}

impl ObjectModel {
    pub open spec fn id(self) -> Id {
        match self {
            ObjectModel::V(v) => v.id,
            ObjectModel::E(e) => e.id,
        }
    }
}

impl GraphObject {
    pub fn id(&self) -> (r: Id)
        ensures
            r == self@.id(),
    {
        match self {
            GraphObject::V(v) => v.id,
            GraphObject::E(e) => e.id,
        }
    }
}

/// A path walked so far: its elements in the order they were visited.
#[derive(Debug, PartialEq, Eq)]
pub struct GraphPath {
    pub elements: Vec<GraphObject>,
}

pub open spec fn models_of(s: Seq<GraphObject>) -> Seq<ObjectModel> {
    s.map_values(|o: GraphObject| o@)
}

impl View for GraphPath {
    type V = Seq<ObjectModel>;

    open spec fn view(&self) -> Seq<ObjectModel> {
        models_of(self.elements@)
    }
}

impl Clone for GraphPath {
    fn clone(&self) -> (r: Self)
        ensures
            r@ == self@,
    {
        let elements = self.elements.clone();
        assert(models_of(elements@) =~= models_of(self.elements@));
        GraphPath { elements }
    }
}

impl GraphPath {
    pub fn new(elements: Vec<GraphObject>) -> (r: GraphPath)
        ensures
            r@ == models_of(elements@),
    {
        GraphPath { elements }
    }

    /// Extends the path by one element at its end.
    pub fn append(&mut self, o: GraphObject)
        ensures
            final(self)@ == old(self)@.push(o@),
    {
        self.elements.push(o);
        assert(models_of(self.elements@) =~= models_of(old(self).elements@).push(o@));
    }

    /// The last element of the path, where the path is not empty.
    pub fn get_path_end(&self) -> (r: Option<&GraphObject>)
        ensures
            self@.len() == 0 ==> r is None,
            self@.len() > 0 ==> (r matches Some(o) && o@ == self@.last()),
    {
        let n = self.elements.len();
        if n == 0 {
            None
        } else {
            Some(&self.elements[n - 1])
        }
    }
}

/// A value stored under a tag of a record.
#[derive(Debug, PartialEq, Eq)]
pub enum Entry {
    Vertex(Vertex),
    Edge(Edge),
    Path(GraphPath),
    Scalar(i64),
}

pub enum EntryModel {
    Vertex(VertexModel),
    Edge(EdgeModel),
    Path(Seq<ObjectModel>),
    Scalar(i64),
}

impl View for Entry {
    type V = EntryModel;

    open spec fn view(&self) -> EntryModel {
        match self {
            Entry::Vertex(v) => EntryModel::Vertex(v@),
            Entry::Edge(e) => EntryModel::Edge(e@),
            Entry::Path(p) => EntryModel::Path(p@),
            Entry::Scalar(x) => EntryModel::Scalar(*x),
        }
    }
}

impl Clone for Entry {
    fn clone(&self) -> (r: Self)
        ensures
            r@ == self@,
    {
        match self {
            Entry::Vertex(v) => Entry::Vertex(v.clone()),
            Entry::Edge(e) => Entry::Edge(e.clone()),
            Entry::Path(p) => Entry::Path(p.clone()),
            Entry::Scalar(x) => Entry::Scalar(*x),
        }
    }
}

/// The entry that holds a matched object.
pub open spec fn entry_of(o: ObjectModel) -> EntryModel {
    match o {
        ObjectModel::V(v) => EntryModel::Vertex(v),
        ObjectModel::E(e) => EntryModel::Edge(e),
    }
}

impl Entry {
    pub fn from_object(o: GraphObject) -> (r: Entry)
        ensures
            r@ == entry_of(o@),
    {
        match o {
            GraphObject::V(v) => Entry::Vertex(v),
            GraphObject::E(e) => Entry::Edge(e),
        }
    }
}

} // verus!
