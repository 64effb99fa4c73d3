use edge_expand::element::{Direction, Edge, Entry, GraphObject, GraphPath, Property, Vertex};
use edge_expand::memory::MemGraph;
use edge_expand::operator::FnExecError;
use edge_expand::plan::{decode_direction, select_mode, EdgeExpand, ExpandMode, FnGenError, NameOrId};
use edge_expand::record::Record;
use edge_expand::stream::{GraphError, MatchStream, PropertyFilter, QueryParams, VecStream};

fn edge(id: u64, src: u64, dst: u64, weight: i64) -> Edge {
    Edge {
        id,
        label: Some(7),
        src_id: src,
        dst_id: dst,
        src_label: Some(1),
        dst_label: Some(2),
        from_src: true,
        details: vec![Property { key: 9, value: weight }],
    }
}

fn graph() -> MemGraph {
    MemGraph {
        edges: vec![edge(100, 1, 2, 5), edge(101, 1, 3, 6), edge(102, 4, 1, 5), edge(103, 1, 4, 5)],
    }
}

fn node(alias: Option<i32>, direction: i32, filter: Option<PropertyFilter>, is_edge: bool) -> EdgeExpand {
    EdgeExpand {
        v_tag: None,
        alias: alias.map(NameOrId::Id),
        direction,
        params: QueryParams { filter, limit: None },
        is_edge,
    }
}

fn head_record(v: u64) -> Record {
    let mut r = Record::new();
    r.insert(None, Entry::Vertex(Vertex::new(v, Some(1))));
    r.insert(Some(3), Entry::Scalar(42));
    r
}

fn run(node: EdgeExpand, g: &MemGraph, input: Record) -> Result<Vec<Record>, FnExecError> {
    let op = node.gen_flat_map(Some(g)).unwrap();
    op.exec(input).map(|s| s.collect_records())
}

#[test]
fn vertex_expansion_stores_each_match_in_order() {
    let g = graph();
    let input = head_record(1);
    let out = run(node(Some(5), 0, None, true), &g, input.clone()).unwrap();
    assert_eq!(out.len(), 3);
    let ids: Vec<u64> = out
        .iter()
        .map(|r| match r.get(Some(5)) {
            Some(Entry::Edge(e)) => e.id,
            other => panic!("expected an edge, got {:?}", other),
        })
        .collect();
    assert_eq!(ids, vec![100, 101, 103]);
    for r in &out {
        assert_eq!(r.get(None), input.get(None));
        assert_eq!(r.get(Some(3)), Some(&Entry::Scalar(42)));
        match r.get(Some(5)) {
            Some(Entry::Edge(e)) => {
                assert!(e.from_src);
                assert_eq!(e.src_id, 1);
            }
            _ => panic!("expected an edge"),
        }
    }
}

#[test]
fn vertex_expansion_without_alias_keeps_record() {
    let g = graph();
    let input = head_record(1);
    let out = run(node(None, 0, None, true), &g, input.clone()).unwrap();
    assert_eq!(out.len(), 3);
    for r in &out {
        assert_eq!(r, &input);
        assert_eq!(r.get(Some(5)), None);
    }
}

#[test]
fn path_expansion_appends_match_and_leaves_input() {
    let g = graph();
    let mut input = Record::new();
    let path = GraphPath::new(vec![GraphObject::V(Vertex::new(4, None)), GraphObject::V(Vertex::new(1, None))]);
    input.insert(Some(2), Entry::Path(path.clone()));
    let kept = input.clone();
    let mut n = node(None, 0, None, false);
    n.v_tag = Some(NameOrId::Id(2));
    let op = n.gen_flat_map(Some(&g)).unwrap();
    let out = op.exec(input.clone()).unwrap().collect_records();
    assert_eq!(input, kept);
    assert_eq!(out.len(), 3);
    match out[0].get(Some(2)) {
        Some(Entry::Path(p)) => {
            assert_eq!(p.elements.len(), 3);
            assert_eq!(&p.elements[..2], &path.elements[..]);
            assert_eq!(p.elements[2], GraphObject::V(Vertex::new(2, Some(2))));
        }
        other => panic!("expected a path, got {:?}", other),
    }
    assert_eq!(out[0].get(None), None);
}

#[test]
fn filtered_vertex_mode_yields_bare_neighbors() {
    let g = graph();
    let f = PropertyFilter { key: 9, value: 5 };
    let out = run(node(Some(6), 2, Some(f), false), &g, head_record(1)).unwrap();
    let got: Vec<&Entry> = out.iter().map(|r| r.get(Some(6)).unwrap()).collect();
    assert_eq!(
        got,
        vec![
            &Entry::Vertex(Vertex::new(2, Some(2))),
            &Entry::Vertex(Vertex::new(4, Some(1))),
            &Entry::Vertex(Vertex::new(4, Some(2))),
        ]
    );
    for e in got {
        match e {
            Entry::Vertex(v) => assert!(v.details.is_empty()),
            _ => panic!("expected a vertex"),
        }
    }
}

#[test]
fn plain_vertex_mode_follows_direction() {
    let g = graph();
    let out = run(node(Some(6), 1, None, false), &g, head_record(1)).unwrap();
    assert_eq!(out.len(), 1);
    assert_eq!(out[0].get(Some(6)), Some(&Entry::Vertex(Vertex::new(4, Some(1)))));
}

#[test]
fn edges_in_direction_are_seen_from_the_target() {
    let g = graph();
    let out = run(node(Some(6), 1, None, true), &g, head_record(1)).unwrap();
    assert_eq!(out.len(), 1);
    match out[0].get(Some(6)) {
        Some(Entry::Edge(e)) => {
            assert_eq!(e.id, 102);
            assert!(!e.from_src);
            assert_eq!(e.get_other_id(), 4);
        }
        _ => panic!("expected an edge"),
    }
}

#[test]
fn limit_cuts_the_matches() {
    let g = graph();
    let mut n = node(Some(6), 0, None, true);
    n.params.limit = Some(2);
    let out = run(n, &g, head_record(1)).unwrap();
    assert_eq!(out.len(), 2);
}

#[test]
fn vertex_without_edges_yields_nothing() {
    let g = graph();
    let out = run(node(Some(6), 0, None, true), &g, head_record(77)).unwrap();
    assert!(out.is_empty());
}

#[test]
fn missing_start_tag_is_a_tag_error() {
    let g = graph();
    let mut n = node(Some(6), 0, None, true);
    n.v_tag = Some(NameOrId::Id(8));
    let op = n.gen_flat_map(Some(&g)).unwrap();
    assert!(matches!(op.exec(head_record(1)), Err(FnExecError::GetTagError)));
}

#[test]
fn scalar_start_entry_cannot_expand() {
    let g = graph();
    let mut n = node(Some(6), 0, None, true);
    n.v_tag = Some(NameOrId::Id(3));
    let op = n.gen_flat_map(Some(&g)).unwrap();
    assert!(matches!(op.exec(head_record(1)), Err(FnExecError::NotExpandable)));
}

#[test]
fn empty_path_has_no_end() {
    let g = graph();
    let mut input = Record::new();
    input.insert(None, Entry::Path(GraphPath::new(vec![])));
    let op = node(Some(6), 0, None, true).gen_flat_map(Some(&g)).unwrap();
    assert!(matches!(op.exec(input), Err(FnExecError::PathEndMissing)));
}

#[test]
fn build_errors_come_at_build_time() {
    let g = graph();
    let mut n = node(Some(6), 0, None, true);
    n.alias = Some(NameOrId::Name("a".to_string()));
    assert!(matches!(n.gen_flat_map(Some(&g)), Err(FnGenError::UnresolvedTag)));
    let n = node(Some(6), 5, None, true);
    assert!(matches!(n.gen_flat_map(Some(&g)), Err(FnGenError::UnknownDirection(5))));
    let n = node(Some(6), 0, None, true);
    assert!(matches!(n.gen_flat_map::<MemGraph>(None), Err(FnGenError::NullGraphError)));
}

#[test]
fn direction_codes_decode() {
    assert_eq!(decode_direction(0), Ok(Direction::Out));
    assert_eq!(decode_direction(1), Ok(Direction::In));
    assert_eq!(decode_direction(2), Ok(Direction::Both));
    assert_eq!(decode_direction(-1), Err(FnGenError::UnknownDirection(-1)));
}

#[test]
fn mode_follows_edge_flag_and_filter() {
    assert_eq!(select_mode(true, true), ExpandMode::Edges);
    assert_eq!(select_mode(true, false), ExpandMode::Edges);
    assert_eq!(select_mode(false, true), ExpandMode::FilteredVertices);
    assert_eq!(select_mode(false, false), ExpandMode::Vertices);
}

#[test]
fn building_twice_selects_the_same_matches() {
    let g = graph();
    let n = node(Some(6), 2, Some(PropertyFilter { key: 9, value: 5 }), false);
    let a = n.clone().gen_flat_map(Some(&g)).unwrap();
    let b = n.gen_flat_map(Some(&g)).unwrap();
    for v in [1u64, 2, 4, 9] {
        let x = a.exec(head_record(v)).unwrap().collect_records();
        let y = b.exec(head_record(v)).unwrap().collect_records();
        assert_eq!(x, y);
    }
}

#[test]
fn pulling_one_record_reads_one_match() {
    let g = graph();
    let op = node(Some(6), 0, None, true).gen_flat_map(Some(&g)).unwrap();
    let mut out = op.exec(head_record(1)).unwrap();
    let first = out.next_record().unwrap();
    match first.get(Some(6)) {
        Some(Entry::Edge(e)) => assert_eq!(e.id, 100),
        _ => panic!("expected an edge"),
    }
    let rest = out.collect_records();
    assert_eq!(rest.len(), 2);
}

#[test]
fn in_memory_stream_yields_in_order() {
    let mut s = VecStream::new(vec![GraphObject::V(Vertex::new(1, None)), GraphObject::V(Vertex::new(2, None))]);
    assert_eq!(s.next_match(), Some(GraphObject::V(Vertex::new(1, None))));
    assert_eq!(s.next_match(), Some(GraphObject::V(Vertex::new(2, None))));
    assert_eq!(s.next_match(), None);
}

#[test]
fn store_failure_becomes_an_execution_error() {
    let g = graph();
    let op = node(Some(6), 0, None, true).gen_flat_map(Some(&g)).unwrap();
    let r = op.expand_found(head_record(1), Err(GraphError::Unavailable));
    assert!(matches!(r, Err(FnExecError::Graph(GraphError::Unavailable))));
    let r = op.expand_found(Record::new(), Err(GraphError::Unavailable));
    assert!(matches!(r, Err(FnExecError::GetTagError)));
}

#[test]
fn found_matches_become_records() {
    let g = graph();
    let op = node(Some(6), 0, None, false).gen_flat_map(Some(&g)).unwrap();
    let found = VecStream::new(vec![GraphObject::V(Vertex::new(8, None)), GraphObject::V(Vertex::new(9, None))]);
    let out = op.expand_found(head_record(1), Ok(found)).unwrap().collect_records();
    assert_eq!(out.len(), 2);
    assert_eq!(out[1].get(Some(6)), Some(&Entry::Vertex(Vertex::new(9, None))));
}

#[test]
fn locate_finds_vertex_or_path_end() {
    let g = graph();
    let op = node(Some(6), 0, None, true).gen_flat_map(Some(&g)).unwrap();
    assert_eq!(op.locate(&head_record(4)), Ok(4));
    let mut r = Record::new();
    r.insert(None, Entry::Path(GraphPath::new(vec![GraphObject::V(Vertex::new(2, None)), GraphObject::E(edge(100, 1, 2, 5))])));
    assert_eq!(op.locate(&r), Ok(100));
    assert_eq!(op.locate(&Record::new()), Err(FnExecError::GetTagError));
}

#[test]
fn record_insert_replaces_under_same_tag() {
    let mut r = Record::new();
    r.insert(Some(1), Entry::Scalar(1));
    r.insert(Some(2), Entry::Scalar(2));
    r.insert(Some(1), Entry::Scalar(3));
    assert_eq!(r.get(Some(1)), Some(&Entry::Scalar(3)));
    assert_eq!(r.get(Some(2)), Some(&Entry::Scalar(2)));
    assert_eq!(r.get(None), None);
    let c = r.clone();
    assert_eq!(c, r);
}

#[test]
fn edge_other_end_depends_on_orientation() {
    let mut e = edge(1, 10, 20, 0);
    assert_eq!(e.get_other_id(), 20);
    assert_eq!(e.get_other_label(), Some(2));
    e.from_src = false;
    assert_eq!(e.get_other_id(), 10);
    assert_eq!(e.get_other_label(), Some(1));
}
