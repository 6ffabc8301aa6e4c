//! The lossless reflection of a [`Profile`] as a structured document: a
//! direct, field-for-field mapping in both directions.
//!
//! [`Profile::to_doc`] writes every field; [`Profile::from_doc`] reads the
//! same fields back with the usual defensive defaults. Reading back what was
//! written restores the profile in all fields
//! ([`lemma_reflection_lossless`]).

use vstd::prelude::*;
use vstd::string::*;
use crate::doc::{
    arr_of, elems, field, get_field, num_of, num_or_zero, obj_lookup, opt_val, str_of, str_or,
    DocValue,
};
use crate::models::{
    CpuUsage, Edge, EdgeMetrics, FileLocation, Metadata, Node, NodeMetrics, Process, Profile,
    Thread, ThreadMetrics,
};

verus! {

broadcast use vstd::string::group_string_axioms;

/// How a reflected CPU-usage record reads back.
pub open spec fn refl_cpu(d: DocValue, c: CpuUsage) -> bool {
    &&& c.system == num_or_zero(get_field(d, "system"@))
    &&& c.user == num_or_zero(get_field(d, "user"@))
}

/// How a reflected node cost pair reads back.
pub open spec fn refl_node_metrics(d: DocValue, m: NodeMetrics) -> bool {
    &&& m.cpu_user == num_or_zero(get_field(d, "cpu_user"@))
    &&& m.cpu_sys == num_or_zero(get_field(d, "cpu_sys"@))
}

/// How a reflected edge cost pair reads back.
pub open spec fn refl_edge_metrics(d: DocValue, m: EdgeMetrics) -> bool {
    &&& m.cpu_user == num_or_zero(get_field(d, "cpu_user"@))
    &&& m.cpu_sys == num_or_zero(get_field(d, "cpu_sys"@))
}

/// How a reflected source location reads back.
pub open spec fn refl_location(d: DocValue, l: FileLocation) -> bool {
    &&& l.file@ == str_or(get_field(d, "file"@), ""@)
    &&& l.line == num_or_zero(get_field(d, "line"@))
}

/// How a reflected node reads back.
pub open spec fn refl_node(d: DocValue, n: Node) -> bool {
    &&& n.id == num_or_zero(get_field(d, "id"@))
    &&& refl_location(get_field(d, "location"@), n.location)
    &&& n.tag@ == str_or(get_field(d, "tag"@), ""@)
    &&& refl_node_metrics(get_field(d, "in_metrics"@), n.in_metrics)
    &&& refl_node_metrics(get_field(d, "out_metrics"@), n.out_metrics)
    &&& refl_node_metrics(get_field(d, "self_metrics"@), n.self_metrics)
}

/// How a reflected edge reads back.
pub open spec fn refl_edge(d: DocValue, e: Edge) -> bool {
    &&& e.from == num_or_zero(get_field(d, "from"@))
    &&& e.to == num_or_zero(get_field(d, "to"@))
    &&& refl_edge_metrics(get_field(d, "metrics"@), e.metrics)
}

/// How a reflected thread-metrics record reads back.
pub open spec fn refl_thread_metrics(d: DocValue, m: ThreadMetrics) -> bool {
    &&& refl_cpu(get_field(d, "cpu_usage"@), m.cpu_usage)
    &&& m.memory_usage == num_or_zero(get_field(d, "memory_usage"@))
}

/// How a reflected thread reads back.
pub open spec fn refl_thread(d: DocValue, t: Thread) -> bool {
    &&& t.id == num_or_zero(get_field(d, "id"@))
    &&& t.name@ == str_or(get_field(d, "name"@), ""@)
    &&& t.nodes@.len() == arr_of(get_field(d, "nodes"@)).len()
    &&& forall|i: int|
        0 <= i < t.nodes@.len() ==> refl_node(
            arr_of(get_field(d, "nodes"@))[i],
            #[trigger] t.nodes@[i],
        )
    &&& t.edges@.len() == arr_of(get_field(d, "edges"@)).len()
    &&& forall|i: int|
        0 <= i < t.edges@.len() ==> refl_edge(
            arr_of(get_field(d, "edges"@))[i],
            #[trigger] t.edges@[i],
        )
    &&& refl_thread_metrics(get_field(d, "metrics"@), t.metrics)
}

/// How a reflected metadata record reads back.
pub open spec fn refl_metadata(d: DocValue, m: Metadata) -> bool {
    &&& m.schema_version@ == str_or(get_field(d, "schema_version"@), ""@)
    &&& m.timestamp == num_or_zero(get_field(d, "timestamp"@))
}

/// How a reflected process record reads back.
pub open spec fn refl_process(d: DocValue, p: Process) -> bool {
    &&& refl_cpu(get_field(d, "cpu_usage"@), p.cpu_usage)
    &&& p.memory_usage == num_or_zero(get_field(d, "memory_usage"@))
    &&& p.pid == num_or_zero(get_field(d, "pid"@)) as u32
    &&& p.name@ == str_or(get_field(d, "name"@), ""@)
}

/// How a reflected profile reads back.
pub open spec fn refl_profile(d: DocValue, p: Profile) -> bool {
    &&& refl_metadata(get_field(d, "metadata"@), p.metadata)
    &&& refl_process(get_field(d, "process"@), p.process)
    &&& p.threads@.len() == arr_of(get_field(d, "threads"@)).len()
    &&& forall|i: int|
        0 <= i < p.threads@.len() ==> refl_thread(
            arr_of(get_field(d, "threads"@))[i],
            #[trigger] p.threads@[i],
        )
}

/// Field-wise equality of CPU-usage records.
pub open spec fn cpu_eq(a: CpuUsage, b: CpuUsage) -> bool {
    a.system == b.system && a.user == b.user
}

/// Field-wise equality of node cost pairs.
pub open spec fn node_metrics_eq(a: NodeMetrics, b: NodeMetrics) -> bool {
    a.cpu_user == b.cpu_user && a.cpu_sys == b.cpu_sys
}

/// Field-wise equality of nodes, strings compared by contents.
pub open spec fn node_eq(a: Node, b: Node) -> bool {
    &&& a.id == b.id
    &&& a.location.file@ == b.location.file@
    &&& a.location.line == b.location.line
    &&& a.tag@ == b.tag@
    &&& node_metrics_eq(a.in_metrics, b.in_metrics)
    &&& node_metrics_eq(a.out_metrics, b.out_metrics)
    &&& node_metrics_eq(a.self_metrics, b.self_metrics)
}

/// Field-wise equality of edges.
pub open spec fn edge_eq(a: Edge, b: Edge) -> bool {
    &&& a.from == b.from
    &&& a.to == b.to
    &&& a.metrics.cpu_user == b.metrics.cpu_user
    &&& a.metrics.cpu_sys == b.metrics.cpu_sys
}

/// Field-wise equality of threads, element by element.
pub open spec fn thread_eq(a: Thread, b: Thread) -> bool {
    &&& a.id == b.id
    &&& a.name@ == b.name@
    &&& a.nodes@.len() == b.nodes@.len()
    &&& forall|i: int| 0 <= i < a.nodes@.len() ==> node_eq(#[trigger] a.nodes@[i], b.nodes@[i])
    &&& a.edges@.len() == b.edges@.len()
    &&& forall|i: int| 0 <= i < a.edges@.len() ==> edge_eq(#[trigger] a.edges@[i], b.edges@[i])
    &&& cpu_eq(a.metrics.cpu_usage, b.metrics.cpu_usage)
    &&& a.metrics.memory_usage == b.metrics.memory_usage
}

/// Field-wise equality of whole profiles, strings compared by contents.
pub open spec fn profile_eq(a: Profile, b: Profile) -> bool {
    &&& a.metadata.schema_version@ == b.metadata.schema_version@
    &&& a.metadata.timestamp == b.metadata.timestamp
    &&& cpu_eq(a.process.cpu_usage, b.process.cpu_usage)
    &&& a.process.memory_usage == b.process.memory_usage
    &&& a.process.pid == b.process.pid
    &&& a.process.name@ == b.process.name@
    &&& a.threads@.len() == b.threads@.len()
    &&& forall|i: int| 0 <= i < a.threads@.len() ==> thread_eq(#[trigger] a.threads@[i], b.threads@[i])
}

/// The reflection is lossless: two profiles that read back from the same
/// document are equal in all fields, so writing a profile out with
/// [`Profile::to_doc`] and reading it back with [`Profile::from_doc`]
/// restores it.
pub proof fn lemma_reflection_lossless(d: DocValue, p: Profile, q: Profile)
    requires
        refl_profile(d, p),
        refl_profile(d, q),
    ensures
        profile_eq(p, q),
{
    let tds = arr_of(get_field(d, "threads"@));
    assert forall|i: int| 0 <= i < p.threads@.len() implies thread_eq(
        p.threads@[i],
        #[trigger] q.threads@[i],
    ) by {
        let td = tds[i];
        let pt = p.threads@[i];
        let qt = q.threads@[i];
        assert(refl_thread(td, pt));
        assert(refl_thread(td, qt));
        assert forall|j: int| 0 <= j < pt.nodes@.len() implies node_eq(
            #[trigger] pt.nodes@[j],
            qt.nodes@[j],
        ) by {
            assert(refl_node(arr_of(get_field(td, "nodes"@))[j], pt.nodes@[j]));
            assert(refl_node(arr_of(get_field(td, "nodes"@))[j], qt.nodes@[j]));
        }
        assert forall|j: int| 0 <= j < pt.edges@.len() implies edge_eq(
            #[trigger] pt.edges@[j],
            qt.edges@[j],
        ) by {
            assert(refl_edge(arr_of(get_field(td, "edges"@))[j], pt.edges@[j]));
            assert(refl_edge(arr_of(get_field(td, "edges"@))[j], qt.edges@[j]));
        }
    }
}

proof fn lemma_obj_lookup_at(fields: Seq<(String, DocValue)>, i: int, k: Seq<char>)
    requires
        0 <= i < fields.len(),
        fields[i].0@ == k,
        forall|j: int| 0 <= j < i ==> (#[trigger] fields[j]).0@ != k,
    ensures
        obj_lookup(fields, k) == fields[i].1,
    decreases i,
{
    if i > 0 {
        assert(forall|j: int| 0 <= j < i - 1 ==> fields.drop_first()[j] == fields[j + 1]);
        lemma_obj_lookup_at(fields.drop_first(), i - 1, k);
    }
}

fn cpu_doc(c: &CpuUsage) -> (r: DocValue)
    ensures
        refl_cpu(r, *c),
{
    let mut fields: Vec<(String, DocValue)> = Vec::new();
    fields.push((String::from_str("system"), DocValue::Num(Some(c.system))));
    fields.push((String::from_str("user"), DocValue::Num(Some(c.user))));
    let ghost fs = fields@;
    let r = DocValue::Obj(fields);
    proof {
        reveal_strlit("system");
        reveal_strlit("user");
        assert(fs[0].0@ == "system"@);
        assert(fs[1].0@ == "user"@);
        assert(fs[0].0@ != "user"@);
        lemma_obj_lookup_at(fs, 0, "system"@);
        lemma_obj_lookup_at(fs, 1, "user"@);
    }
    r
}

fn node_metrics_doc(m: &NodeMetrics) -> (r: DocValue)
    ensures
        refl_node_metrics(r, *m),
{
    let mut fields: Vec<(String, DocValue)> = Vec::new();
    fields.push((String::from_str("cpu_user"), DocValue::Num(Some(m.cpu_user))));
    fields.push((String::from_str("cpu_sys"), DocValue::Num(Some(m.cpu_sys))));
    let ghost fs = fields@;
    let r = DocValue::Obj(fields);
    proof {
        reveal_strlit("cpu_user");
        reveal_strlit("cpu_sys");
        assert(fs[0].0@ == "cpu_user"@);
        assert(fs[1].0@ == "cpu_sys"@);
        assert(fs[0].0@ != "cpu_sys"@);
        lemma_obj_lookup_at(fs, 0, "cpu_user"@);
        lemma_obj_lookup_at(fs, 1, "cpu_sys"@);
    }
    r
}

fn edge_metrics_doc(m: &EdgeMetrics) -> (r: DocValue)
    ensures
        refl_edge_metrics(r, *m),
{
    let mut fields: Vec<(String, DocValue)> = Vec::new();
    fields.push((String::from_str("cpu_user"), DocValue::Num(Some(m.cpu_user))));
    fields.push((String::from_str("cpu_sys"), DocValue::Num(Some(m.cpu_sys))));
    let ghost fs = fields@;
    let r = DocValue::Obj(fields);
    proof {
        reveal_strlit("cpu_user");
        reveal_strlit("cpu_sys");
        assert(fs[0].0@ == "cpu_user"@);
        assert(fs[1].0@ == "cpu_sys"@);
        assert(fs[0].0@ != "cpu_sys"@);
        lemma_obj_lookup_at(fs, 0, "cpu_user"@);
        lemma_obj_lookup_at(fs, 1, "cpu_sys"@);
    }
    r
}

fn location_doc(l: &FileLocation) -> (r: DocValue)
    ensures
        refl_location(r, *l),
{
    let mut fields: Vec<(String, DocValue)> = Vec::new();
    fields.push((String::from_str("file"), DocValue::Str(l.file.clone())));
    fields.push((String::from_str("line"), DocValue::Num(Some(l.line))));
    let ghost fs = fields@;
    let r = DocValue::Obj(fields);
    proof {
        reveal_strlit("file");
        reveal_strlit("line");
        assert(fs[0].0@ == "file"@);
        assert(fs[1].0@ == "line"@);
        assert(("file"@)[0] == 'f');
        assert(("line"@)[0] == 'l');
        assert(fs[0].0@ != "line"@);
        lemma_obj_lookup_at(fs, 0, "file"@);
        lemma_obj_lookup_at(fs, 1, "line"@);
    }
    r
}

#[verifier::rlimit(60)]
fn node_doc(n: &Node) -> (r: DocValue)
    ensures
        refl_node(r, *n),
{
    let mut fields: Vec<(String, DocValue)> = Vec::new();
    fields.push((String::from_str("id"), DocValue::Num(Some(n.id))));
    fields.push((String::from_str("location"), location_doc(&n.location)));
    fields.push((String::from_str("tag"), DocValue::Str(n.tag.clone())));
    fields.push((String::from_str("in_metrics"), node_metrics_doc(&n.in_metrics)));
    fields.push((String::from_str("out_metrics"), node_metrics_doc(&n.out_metrics)));
    fields.push((String::from_str("self_metrics"), node_metrics_doc(&n.self_metrics)));
    let ghost fs = fields@;
    let r = DocValue::Obj(fields);
    proof {
        reveal_strlit("id");
        reveal_strlit("location");
        reveal_strlit("tag");
        reveal_strlit("in_metrics");
        reveal_strlit("out_metrics");
        reveal_strlit("self_metrics");
        assert(fs[0].0@ == "id"@);
        assert(fs[1].0@ == "location"@);
        assert(fs[2].0@ == "tag"@);
        assert(fs[3].0@ == "in_metrics"@);
        assert(fs[4].0@ == "out_metrics"@);
        assert(fs[5].0@ == "self_metrics"@);
        assert(fs[0].0@ != "location"@);
        assert(fs[0].0@ != "tag"@);
        assert(fs[1].0@ != "tag"@);
        assert(fs[0].0@ != "in_metrics"@);
        assert(fs[1].0@ != "in_metrics"@);
        assert(fs[2].0@ != "in_metrics"@);
        assert(fs[0].0@ != "out_metrics"@);
        assert(fs[1].0@ != "out_metrics"@);
        assert(fs[2].0@ != "out_metrics"@);
        assert(fs[3].0@ != "out_metrics"@);
        assert(fs[0].0@ != "self_metrics"@);
        assert(fs[1].0@ != "self_metrics"@);
        assert(fs[2].0@ != "self_metrics"@);
        assert(fs[3].0@ != "self_metrics"@);
        assert(fs[4].0@ != "self_metrics"@);
        lemma_obj_lookup_at(fs, 0, "id"@);
        lemma_obj_lookup_at(fs, 1, "location"@);
        lemma_obj_lookup_at(fs, 2, "tag"@);
        lemma_obj_lookup_at(fs, 3, "in_metrics"@);
        lemma_obj_lookup_at(fs, 4, "out_metrics"@);
        lemma_obj_lookup_at(fs, 5, "self_metrics"@);
    }
    r
}

fn edge_doc(e: &Edge) -> (r: DocValue)
    ensures
        refl_edge(r, *e),
{
    let mut fields: Vec<(String, DocValue)> = Vec::new();
    fields.push((String::from_str("from"), DocValue::Num(Some(e.from))));
    fields.push((String::from_str("to"), DocValue::Num(Some(e.to))));
    fields.push((String::from_str("metrics"), edge_metrics_doc(&e.metrics)));
    let ghost fs = fields@;
    let r = DocValue::Obj(fields);
    proof {
        reveal_strlit("from");
        reveal_strlit("to");
        reveal_strlit("metrics");
        assert(fs[0].0@ == "from"@);
        assert(fs[1].0@ == "to"@);
        assert(fs[2].0@ == "metrics"@);
        assert(fs[0].0@ != "to"@);
        assert(fs[0].0@ != "metrics"@);
        assert(fs[1].0@ != "metrics"@);
        lemma_obj_lookup_at(fs, 0, "from"@);
        lemma_obj_lookup_at(fs, 1, "to"@);
        lemma_obj_lookup_at(fs, 2, "metrics"@);
    }
    r
}

fn thread_metrics_doc(m: &ThreadMetrics) -> (r: DocValue)
    ensures
        refl_thread_metrics(r, *m),
{
    let mut fields: Vec<(String, DocValue)> = Vec::new();
    fields.push((String::from_str("cpu_usage"), cpu_doc(&m.cpu_usage)));
    fields.push((String::from_str("memory_usage"), DocValue::Num(Some(m.memory_usage))));
    let ghost fs = fields@;
    let r = DocValue::Obj(fields);
    proof {
        reveal_strlit("cpu_usage");
        reveal_strlit("memory_usage");
        assert(fs[0].0@ == "cpu_usage"@);
        assert(fs[1].0@ == "memory_usage"@);
        assert(fs[0].0@ != "memory_usage"@);
        lemma_obj_lookup_at(fs, 0, "cpu_usage"@);
        lemma_obj_lookup_at(fs, 1, "memory_usage"@);
    }
    r
}

#[verifier::rlimit(60)]
fn thread_doc(t: &Thread) -> (r: DocValue)
    ensures
        refl_thread(r, *t),
{
    let mut ndocs: Vec<DocValue> = Vec::new();
    let nn = t.nodes.len();
    let mut j: usize = 0;
    while j < nn
        invariant
            j <= nn,
            nn == t.nodes@.len(),
            ndocs@.len() == j,
            forall|k: int| 0 <= k < j ==> refl_node(#[trigger] ndocs@[k], t.nodes@[k]),
        decreases nn - j,
    {
        ndocs.push(node_doc(&t.nodes[j]));
        j = j + 1;
    }

    let mut edocs: Vec<DocValue> = Vec::new();
    let ne = t.edges.len();
    let mut j: usize = 0;
    while j < ne
        invariant
            j <= ne,
            ne == t.edges@.len(),
            edocs@.len() == j,
            forall|k: int| 0 <= k < j ==> refl_edge(#[trigger] edocs@[k], t.edges@[k]),
        decreases ne - j,
    {
        edocs.push(edge_doc(&t.edges[j]));
        j = j + 1;
    }

    let ghost nds = ndocs@;
    let ghost eds = edocs@;
    let mut fields: Vec<(String, DocValue)> = Vec::new();
    fields.push((String::from_str("id"), DocValue::Num(Some(t.id))));
    fields.push((String::from_str("name"), DocValue::Str(t.name.clone())));
    fields.push((String::from_str("nodes"), DocValue::Arr(ndocs)));
    fields.push((String::from_str("edges"), DocValue::Arr(edocs)));
    fields.push((String::from_str("metrics"), thread_metrics_doc(&t.metrics)));
    let ghost fs = fields@;
    let r = DocValue::Obj(fields);
    proof {
        reveal_strlit("id");
        reveal_strlit("name");
        reveal_strlit("nodes");
        reveal_strlit("edges");
        reveal_strlit("metrics");
        assert(fs[0].0@ == "id"@);
        assert(fs[1].0@ == "name"@);
        assert(fs[2].0@ == "nodes"@);
        assert(fs[3].0@ == "edges"@);
        assert(fs[4].0@ == "metrics"@);
        assert(fs[0].0@ != "name"@);
        assert(fs[0].0@ != "nodes"@);
        assert(fs[1].0@ != "nodes"@);
        assert(fs[0].0@ != "edges"@);
        assert(fs[1].0@ != "edges"@);
        assert(("nodes"@)[0] == 'n');
        assert(("edges"@)[0] == 'e');
        assert(fs[2].0@ != "edges"@);
        assert(fs[0].0@ != "metrics"@);
        assert(fs[1].0@ != "metrics"@);
        assert(fs[2].0@ != "metrics"@);
        assert(fs[3].0@ != "metrics"@);
        lemma_obj_lookup_at(fs, 0, "id"@);
        lemma_obj_lookup_at(fs, 1, "name"@);
        lemma_obj_lookup_at(fs, 2, "nodes"@);
        lemma_obj_lookup_at(fs, 3, "edges"@);
        lemma_obj_lookup_at(fs, 4, "metrics"@);
        assert(arr_of(get_field(r, "nodes"@)) == nds);
        assert(arr_of(get_field(r, "edges"@)) == eds);
    }
    r
}

fn metadata_doc(m: &Metadata) -> (r: DocValue)
    ensures
        refl_metadata(r, *m),
{
    let mut fields: Vec<(String, DocValue)> = Vec::new();
    fields.push((String::from_str("schema_version"), DocValue::Str(m.schema_version.clone())));
    fields.push((String::from_str("timestamp"), DocValue::Num(Some(m.timestamp))));
    let ghost fs = fields@;
    let r = DocValue::Obj(fields);
    proof {
        reveal_strlit("schema_version");
        reveal_strlit("timestamp");
        assert(fs[0].0@ == "schema_version"@);
        assert(fs[1].0@ == "timestamp"@);
        assert(fs[0].0@ != "timestamp"@);
        lemma_obj_lookup_at(fs, 0, "schema_version"@);
        lemma_obj_lookup_at(fs, 1, "timestamp"@);
    }
    r
}

fn process_doc(p: &Process) -> (r: DocValue)
    ensures
        refl_process(r, *p),
{
    let mut fields: Vec<(String, DocValue)> = Vec::new();
    fields.push((String::from_str("cpu_usage"), cpu_doc(&p.cpu_usage)));
    fields.push((String::from_str("memory_usage"), DocValue::Num(Some(p.memory_usage))));
    fields.push((String::from_str("pid"), DocValue::Num(Some(p.pid as u64))));
    fields.push((String::from_str("name"), DocValue::Str(p.name.clone())));
    let ghost fs = fields@;
    let r = DocValue::Obj(fields);
    proof {
        reveal_strlit("cpu_usage");
        reveal_strlit("memory_usage");
        reveal_strlit("pid");
        reveal_strlit("name");
        assert(fs[0].0@ == "cpu_usage"@);
        assert(fs[1].0@ == "memory_usage"@);
        assert(fs[2].0@ == "pid"@);
        assert(fs[3].0@ == "name"@);
        assert(fs[0].0@ != "memory_usage"@);
        assert(fs[0].0@ != "pid"@);
        assert(fs[1].0@ != "pid"@);
        assert(fs[0].0@ != "name"@);
        assert(fs[1].0@ != "name"@);
        assert(fs[2].0@ != "name"@);
        lemma_obj_lookup_at(fs, 0, "cpu_usage"@);
        lemma_obj_lookup_at(fs, 1, "memory_usage"@);
        lemma_obj_lookup_at(fs, 2, "pid"@);
        lemma_obj_lookup_at(fs, 3, "name"@);
    }
    r
}

fn node_metrics_from(d: Option<&DocValue>) -> (m: NodeMetrics)
    ensures
        refl_node_metrics(opt_val(d), m),
{
    NodeMetrics {
        cpu_user: num_of(field(d, "cpu_user")),
        cpu_sys: num_of(field(d, "cpu_sys")),
    }
}

fn edge_metrics_from(d: Option<&DocValue>) -> (m: EdgeMetrics)
    ensures
        refl_edge_metrics(opt_val(d), m),
{
    EdgeMetrics {
        cpu_user: num_of(field(d, "cpu_user")),
        cpu_sys: num_of(field(d, "cpu_sys")),
    }
}

fn cpu_from(d: Option<&DocValue>) -> (c: CpuUsage)
    ensures
        refl_cpu(opt_val(d), c),
{
    CpuUsage { system: num_of(field(d, "system")), user: num_of(field(d, "user")) }
}

fn node_from(d: Option<&DocValue>) -> (n: Node)
    ensures
        refl_node(opt_val(d), n),
{
    let loc = field(d, "location");
    Node {
        id: num_of(field(d, "id")),
        location: FileLocation {
            file: str_of(field(loc, "file"), ""),
            line: num_of(field(loc, "line")),
        },
        tag: str_of(field(d, "tag"), ""),
        in_metrics: node_metrics_from(field(d, "in_metrics")),
        out_metrics: node_metrics_from(field(d, "out_metrics")),
        self_metrics: node_metrics_from(field(d, "self_metrics")),
    }
}

fn edge_from(d: Option<&DocValue>) -> (e: Edge)
    ensures
        refl_edge(opt_val(d), e),
{
    Edge {
        from: num_of(field(d, "from")),
        to: num_of(field(d, "to")),
        metrics: edge_metrics_from(field(d, "metrics")),
    }
}

fn thread_from(d: Option<&DocValue>) -> (t: Thread)
    ensures
        refl_thread(opt_val(d), t),
{
    let mut nodes: Vec<Node> = Vec::new();
    if let Some(nv) = elems(field(d, "nodes")) {
        let nn = nv.len();
        let mut j: usize = 0;
        while j < nn
            invariant
                j <= nn,
                nn == nv@.len(),
                nv@ == arr_of(get_field(opt_val(d), "nodes"@)),
                nodes@.len() == j,
                forall|k: int| 0 <= k < j ==> refl_node(nv@[k], #[trigger] nodes@[k]),
            decreases nn - j,
        {
            nodes.push(node_from(Some(&nv[j])));
            j = j + 1;
        }
    }
    let mut edges: Vec<Edge> = Vec::new();
    if let Some(ev) = elems(field(d, "edges")) {
        let ne = ev.len();
        let mut j: usize = 0;
        while j < ne
            invariant
                j <= ne,
                ne == ev@.len(),
                ev@ == arr_of(get_field(opt_val(d), "edges"@)),
                edges@.len() == j,
                forall|k: int| 0 <= k < j ==> refl_edge(ev@[k], #[trigger] edges@[k]),
            decreases ne - j,
        {
            edges.push(edge_from(Some(&ev[j])));
            j = j + 1;
        }
    }
    let tm = field(d, "metrics");
    Thread {
        id: num_of(field(d, "id")),
        name: str_of(field(d, "name"), ""),
        nodes,
        edges,
        metrics: ThreadMetrics {
            cpu_usage: cpu_from(field(tm, "cpu_usage")),
            memory_usage: num_of(field(tm, "memory_usage")),
        },
    }
}

impl Profile {
    /// Writes the profile out as a structured document, field for field.
    pub fn to_doc(&self) -> (r: DocValue)
        ensures
            refl_profile(r, *self),
    {
        let mut tdocs: Vec<DocValue> = Vec::new();
        let n = self.threads.len();
        let mut i: usize = 0;
        while i < n
            invariant
                i <= n,
                n == self.threads@.len(),
                tdocs@.len() == i,
                forall|k: int| 0 <= k < i ==> refl_thread(#[trigger] tdocs@[k], self.threads@[k]),
            decreases n - i,
        {
            tdocs.push(thread_doc(&self.threads[i]));
            i = i + 1;
        }
        let ghost tds = tdocs@;
        let mut fields: Vec<(String, DocValue)> = Vec::new();
        fields.push((String::from_str("metadata"), metadata_doc(&self.metadata)));
        fields.push((String::from_str("process"), process_doc(&self.process)));
        fields.push((String::from_str("threads"), DocValue::Arr(tdocs)));
        let ghost fs = fields@;
        let r = DocValue::Obj(fields);
        proof {
            reveal_strlit("metadata");
            reveal_strlit("process");
            reveal_strlit("threads");
            assert(fs[0].0@ == "metadata"@);
            assert(fs[1].0@ == "process"@);
            assert(fs[2].0@ == "threads"@);
            assert(fs[0].0@ != "process"@);
            assert(fs[0].0@ != "threads"@);
            assert(("process"@)[0] == 'p');
            assert(("threads"@)[0] == 't');
            assert(fs[1].0@ != "threads"@);
            lemma_obj_lookup_at(fs, 0, "metadata"@);
            lemma_obj_lookup_at(fs, 1, "process"@);
            lemma_obj_lookup_at(fs, 2, "threads"@);
            assert(arr_of(get_field(r, "threads"@)) == tds);
        }
        r
    }

    /// Reads a profile back from a structured document, field for field,
    /// with the usual defensive defaults for anything missing or mistyped.
    pub fn from_doc(d: &DocValue) -> (p: Profile)
        ensures
            refl_profile(*d, p),
    {
        let root = Some(d);
        let md = field(root, "metadata");
        let pr = field(root, "process");
        let mut threads: Vec<Thread> = Vec::new();
        if let Some(tv) = elems(field(root, "threads")) {
            let n = tv.len();
            let mut i: usize = 0;
            while i < n
                invariant
                    i <= n,
                    n == tv@.len(),
                    tv@ == arr_of(get_field(*d, "threads"@)),
                    threads@.len() == i,
                    forall|k: int| 0 <= k < i ==> refl_thread(tv@[k], #[trigger] threads@[k]),
                decreases n - i,
            {
                threads.push(thread_from(Some(&tv[i])));
                i = i + 1;
            }
        }
        Profile {
            metadata: Metadata {
                schema_version: str_of(field(md, "schema_version"), ""),
                timestamp: num_of(field(md, "timestamp")),
            },
            process: Process {
                cpu_usage: cpu_from(field(pr, "cpu_usage")),
                memory_usage: num_of(field(pr, "memory_usage")),
                pid: num_of(field(pr, "pid")) as u32,
                name: str_of(field(pr, "name"), ""),
            },
            threads,
        }
    }
}

} // verus!
