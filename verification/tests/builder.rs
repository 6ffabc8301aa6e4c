use scopebox::doc::DocValue;
use scopebox::models::{Profile, ProfileError};

fn obj(fields: Vec<(&str, DocValue)>) -> DocValue {
    DocValue::Obj(fields.into_iter().map(|(k, v)| (String::from(k), v)).collect())
}

fn num(n: u64) -> DocValue {
    DocValue::Num(Some(n))
}

fn text(s: &str) -> DocValue {
    DocValue::Str(String::from(s))
}

fn cpu(user: u64, system: u64) -> DocValue {
    obj(vec![("system", num(system)), ("user", num(user))])
}

fn node_rec(id: u64, tag: &str, file: &str, line: u64) -> DocValue {
    obj(vec![
        ("id", num(id)),
        ("tag", text(tag)),
        ("location", obj(vec![("file", text(file)), ("line", num(line))])),
    ])
}

fn edge_rec(from: u64, to: u64, cpu_user: u64, cpu_sys: u64) -> DocValue {
    obj(vec![
        ("from", num(from)),
        ("to", num(to)),
        ("metrics", obj(vec![("cpu_user", num(cpu_user)), ("cpu_sys", num(cpu_sys))])),
    ])
}

fn thread_rec(id: u64, name: &str, user: u64, system: u64, nodes: Vec<DocValue>, edges: Vec<DocValue>) -> DocValue {
    obj(vec![
        ("id", num(id)),
        ("name", text(name)),
        ("cpu_usage", cpu(user, system)),
        ("graph", obj(vec![("nodes", DocValue::Arr(nodes)), ("edges", DocValue::Arr(edges))])),
    ])
}

fn trace(threads: Vec<DocValue>) -> DocValue {
    obj(vec![
        (
            "metadata",
            obj(vec![("schema_version", text("v1")), ("timestamp", num(17))]),
        ),
        (
            "process",
            obj(vec![
                ("cpu_usage", cpu(7, 3)),
                ("memory_usage", num(2_500_000)),
                ("pid", num(42)),
                ("name", text("proc")),
            ]),
        ),
        ("threads", DocValue::Arr(threads)),
    ])
}

#[test]
fn example_single_thread_metrics() {
    // One thread, nodes {1: root, 2: leaf}, one edge 1 -> 2 with {30, 5},
    // thread aggregate {user: 100, sys: 10}.
    let doc = trace(vec![thread_rec(
        1,
        "main",
        100,
        10,
        vec![node_rec(1, "root", "main.rs", 3), node_rec(2, "leaf", "util.rs", 9)],
        vec![edge_rec(1, 2, 30, 5)],
    )]);
    let p = Profile::build(&doc).unwrap();
    assert_eq!(p.threads.len(), 1);
    let t = &p.threads[0];
    let n1 = &t.nodes[0];
    assert_eq!(n1.in_metrics.cpu_user, 100);
    assert_eq!(n1.in_metrics.cpu_sys, 10);
    assert_eq!(n1.out_metrics.cpu_user, 30);
    assert_eq!(n1.out_metrics.cpu_sys, 5);
    assert_eq!(n1.self_metrics.cpu_user, 70);
    assert_eq!(n1.self_metrics.cpu_sys, 5);
    let n2 = &t.nodes[1];
    assert_eq!(n2.in_metrics.cpu_user, 30);
    assert_eq!(n2.in_metrics.cpu_sys, 5);
    assert_eq!(n2.out_metrics.cpu_user, 0);
    assert_eq!(n2.out_metrics.cpu_sys, 0);
    assert_eq!(n2.self_metrics.cpu_user, 30);
    assert_eq!(n2.self_metrics.cpu_sys, 5);
}

#[test]
fn root_override_beats_incoming_edges() {
    // The root node has incoming edges summing to 40/8, but its thread's
    // aggregate usage is 100/10: in_metrics must be the aggregate.
    let doc = trace(vec![thread_rec(
        5,
        "worker",
        100,
        10,
        vec![node_rec(1, "root", "a.rs", 1), node_rec(2, "", "b.rs", 2)],
        vec![edge_rec(2, 1, 40, 8)],
    )]);
    let p = Profile::build(&doc).unwrap();
    let n1 = &p.threads[0].nodes[0];
    assert_eq!(n1.in_metrics.cpu_user, 100);
    assert_eq!(n1.in_metrics.cpu_sys, 10);
}

#[test]
fn no_incoming_not_root_is_zero() {
    let doc = trace(vec![thread_rec(
        1,
        "t",
        50,
        5,
        vec![node_rec(3, "leaf", "c.rs", 1)],
        vec![edge_rec(3, 9, 20, 2)],
    )]);
    let p = Profile::build(&doc).unwrap();
    let n = &p.threads[0].nodes[0];
    assert_eq!(n.in_metrics.cpu_user, 0);
    assert_eq!(n.in_metrics.cpu_sys, 0);
    // It is an edge source, so its out and self metrics follow the rules.
    assert_eq!(n.out_metrics.cpu_user, 20);
    assert_eq!(n.self_metrics.cpu_user, 0);
}

#[test]
fn self_cost_floors_at_zero() {
    // Outgoing exceeds incoming: self cost is zero, never negative.
    let doc = trace(vec![thread_rec(
        1,
        "t",
        50,
        5,
        vec![node_rec(1, "mid", "m.rs", 1)],
        vec![edge_rec(9, 1, 10, 1), edge_rec(1, 8, 30, 4)],
    )]);
    let p = Profile::build(&doc).unwrap();
    let n = &p.threads[0].nodes[0];
    assert_eq!(n.in_metrics.cpu_user, 10);
    assert_eq!(n.out_metrics.cpu_user, 30);
    assert_eq!(n.self_metrics.cpu_user, 0);
    assert_eq!(n.self_metrics.cpu_sys, 0);
}

#[test]
fn missing_tag_defaults_to_empty() {
    let node = obj(vec![
        ("id", num(1)),
        ("location", obj(vec![("file", text("x.rs")), ("line", num(1))])),
    ]);
    let doc = trace(vec![thread_rec(1, "t", 10, 1, vec![node], vec![])]);
    let p = Profile::build(&doc).unwrap();
    assert_eq!(p.threads[0].nodes[0].tag, "");
}

#[test]
fn missing_node_id_is_fatal() {
    let node = obj(vec![("tag", text("root"))]);
    let doc = trace(vec![thread_rec(1, "t", 10, 1, vec![node], vec![])]);
    assert_eq!(Profile::build(&doc).unwrap_err(), ProfileError::MissingNodeId);
}

#[test]
fn missing_edge_endpoint_is_fatal() {
    let edge = obj(vec![("from", num(1))]);
    let doc = trace(vec![thread_rec(
        1,
        "t",
        10,
        1,
        vec![node_rec(1, "root", "a.rs", 1)],
        vec![edge],
    )]);
    assert_eq!(Profile::build(&doc).unwrap_err(), ProfileError::MissingEdgeEndpoint);
}

#[test]
fn node_error_reported_before_edge_error() {
    // Within one thread all node records are examined before any edge
    // record, so the node failure wins.
    let bad_node = obj(vec![("tag", text("x"))]);
    let bad_edge = obj(vec![("to", num(2))]);
    let doc = trace(vec![thread_rec(1, "t", 10, 1, vec![bad_node], vec![bad_edge])]);
    assert_eq!(Profile::build(&doc).unwrap_err(), ProfileError::MissingNodeId);
}

#[test]
fn incoming_totals_clamp_at_limit() {
    let doc = trace(vec![thread_rec(
        1,
        "t",
        10,
        1,
        vec![node_rec(7, "leaf", "a.rs", 1)],
        vec![edge_rec(1, 7, u64::MAX, 0), edge_rec(2, 7, 5, 0)],
    )]);
    let p = Profile::build(&doc).unwrap();
    assert_eq!(p.threads[0].nodes[0].in_metrics.cpu_user, u64::MAX);
}

#[test]
fn defaults_for_missing_optional_fields() {
    // An empty document builds: every optional field takes its default.
    let doc = obj(vec![]);
    let p = Profile::build(&doc).unwrap();
    assert_eq!(p.metadata.schema_version, "");
    assert_eq!(p.metadata.timestamp, 0);
    assert_eq!(p.process.pid, 0);
    assert_eq!(p.process.name, "");
    assert_eq!(p.threads.len(), 0);
}

#[test]
fn parse_reads_json_text() {
    let json = r#"{
        "metadata": {"schema_version": "2.1", "timestamp": 99},
        "process": {"cpu_usage": {"user": 11, "system": 4}, "memory_usage": 3000000, "pid": 77, "name": "svc"},
        "threads": [{
            "id": 9, "name": "main",
            "cpu_usage": {"user": 100, "system": 10},
            "graph": {
                "nodes": [{"id": 1, "tag": "root", "location": {"file": "src/run.rs", "line": 12}},
                          {"id": 2, "tag": "leaf", "location": {"file": "src/util.rs", "line": 40}}],
                "edges": [{"from": 1, "to": 2, "metrics": {"cpu_user": 30, "cpu_sys": 5}}]
            }
        }]
    }"#;
    let p = Profile::parse(json).unwrap();
    assert_eq!(p.metadata.schema_version, "2.1");
    assert_eq!(p.metadata.timestamp, 99);
    assert_eq!(p.process.cpu_usage.user, 11);
    assert_eq!(p.process.cpu_usage.system, 4);
    assert_eq!(p.process.memory_usage, 3000000);
    assert_eq!(p.process.pid, 77);
    assert_eq!(p.process.name, "svc");
    let t = &p.threads[0];
    assert_eq!(t.id, 9);
    assert_eq!(t.name, "main");
    assert_eq!(t.nodes[0].tag, "root");
    assert_eq!(t.nodes[0].location.file, "src/run.rs");
    assert_eq!(t.nodes[0].location.line, 12);
    assert_eq!(t.nodes[0].in_metrics.cpu_user, 100);
    assert_eq!(t.nodes[1].in_metrics.cpu_user, 30);
    assert_eq!(t.edges[0].from, 1);
    assert_eq!(t.edges[0].to, 2);
    assert_eq!(t.edges[0].metrics.cpu_user, 30);
}

#[test]
fn parse_rejects_malformed_text() {
    assert_eq!(Profile::parse("{not json").unwrap_err(), ProfileError::Syntax);
    assert_eq!(Profile::parse("").unwrap_err(), ProfileError::Syntax);
}

#[test]
fn parse_tolerates_non_record_document() {
    // Well-formed JSON that is not a record still builds, with defaults.
    let p = Profile::parse("42").unwrap();
    assert_eq!(p.metadata.schema_version, "");
    assert_eq!(p.threads.len(), 0);
}

#[test]
fn error_messages() {
    assert_eq!(
        ProfileError::Syntax.message(),
        "input is not a well-formed structured document"
    );
    assert_eq!(
        ProfileError::MissingNodeId.message(),
        "a node record lacks its mandatory id"
    );
    assert_eq!(
        ProfileError::MissingEdgeEndpoint.message(),
        "an edge record lacks a mandatory endpoint"
    );
}

#[test]
fn earlier_thread_error_wins_across_threads() {
    // Threads are scanned in input order: the first thread's edge failure
    // is reported even though a later thread has a node failure.
    let t0 = thread_rec(0, "a", 1, 1, vec![node_rec(1, "root", "a.rs", 1)], vec![obj(vec![("to", num(2))])]);
    let t1 = thread_rec(1, "b", 1, 1, vec![obj(vec![("tag", text("x"))])], vec![]);
    let doc = trace(vec![t0, t1]);
    assert_eq!(Profile::build(&doc).unwrap_err(), ProfileError::MissingEdgeEndpoint);
}
