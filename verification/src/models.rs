//! The typed profile model and the model builder: turns a loosely-typed
//! trace document into a [`Profile`] whose per-node cost metrics are derived
//! from the edge data.
//!
//! Extraction is defensive: a missing or wrong-typed optional field reads as
//! a fixed default (empty string, zero, empty collection). The identifying
//! fields alone are mandatory: a node record without an unsigned-integer
//! `id`, or an edge record without such a `from` and `to`, fails the whole
//! conversion.

use vstd::prelude::*;
use vstd::string::*;
use crate::doc::{
    arr_of, elems, field, get_field, is_num, num_checked, num_of, num_or_zero, opt_val, str_of,
    str_or, DocValue,
};

verus! {

/// One profiled thread: its call graph and aggregate CPU usage.
#[derive(Debug)]
pub struct Thread {
    pub id: u64,
    pub name: String,
    pub nodes: Vec<Node>,
    pub edges: Vec<Edge>,
    pub metrics: ThreadMetrics,
}

/// Aggregate resource usage of one thread. `memory_usage` is reserved and
/// always zero in built profiles.
#[derive(Debug)]
pub struct ThreadMetrics {
    pub cpu_usage: CpuUsage,
    pub memory_usage: u64,
}

/// Schema version and capture timestamp of the trace.
#[derive(Debug)]
pub struct Metadata {
    pub schema_version: String,
    pub timestamp: u64,
}

/// CPU time split into system and user milliseconds.
#[derive(Debug)]
pub struct CpuUsage {
    pub system: u64,
    pub user: u64,
}

/// Aggregate usage of the whole profiled process, copied verbatim from the
/// trace.
#[derive(Debug)]
pub struct Process {
    pub cpu_usage: CpuUsage,
    pub memory_usage: u64,
    pub pid: u32,
    pub name: String,
}

/// The root entity: metadata, the process, and the threads in input order.
#[derive(Debug)]
pub struct Profile {
    pub metadata: Metadata,
    pub process: Process,
    pub threads: Vec<Thread>,
}

/// A call-site in a thread's call graph, with its derived metric pairs.
#[derive(Debug)]
pub struct Node {
    pub id: u64,
    pub location: FileLocation,
    pub tag: String,
    pub in_metrics: NodeMetrics,
    pub out_metrics: NodeMetrics,
    pub self_metrics: NodeMetrics,
}

/// A directed call arc between two node ids of the same thread.
#[derive(Debug)]
pub struct Edge {
    pub from: u64,
    pub to: u64,
    pub metrics: EdgeMetrics,
}

/// A derived cost pair of one node.
#[derive(Debug)]
pub struct NodeMetrics {
    pub cpu_user: u64,
    pub cpu_sys: u64,
}

/// The cost carried by one edge.
#[derive(Debug)]
pub struct EdgeMetrics {
    pub cpu_user: u64,
    pub cpu_sys: u64,
}

/// A source location: file path and line number.
#[derive(Debug)]
pub struct FileLocation {
    pub file: String,
    pub line: u64,
}

/// Why a conversion failed. Anything else in the input is defaulted, never
/// fatal.
#[derive(Debug, PartialEq, Eq, Structural, Clone, Copy)]
pub enum ProfileError {
    /// The input is not a well-formed structured document at all.
    Syntax,
    /// A node record lacks an unsigned-integer `id`.
    MissingNodeId,
    /// An edge record lacks an unsigned-integer `from` or `to`.
    MissingEdgeEndpoint,
}

impl Default for NodeMetrics {
    /// A zero cost pair.
    fn default() -> (r: NodeMetrics)
        ensures
            r.cpu_user == 0 && r.cpu_sys == 0,
    {
        NodeMetrics { cpu_user: 0, cpu_sys: 0 }
    }
}

/// The outside value tree that raw trace text parses into.
#[verifier::external_type_specification]
#[verifier::external_body]
pub struct ExValue(serde_json::Value);

/// The outside error that a failed structural parse reports.
#[verifier::external_type_specification]
#[verifier::external_body]
pub struct ExJsonError(serde_json::Error);

/// The document that a piece of text parses into, `None` when the text is
/// not well-formed: a name for what `parse_json` returns, fixed by the text
/// alone.
pub uninterp spec fn json_doc(s: Seq<char>) -> Option<DocValue>;

/// Relies on serde_json::Value: carries one parsed value over into the
/// library's document type, variant for variant. A number that is not an
/// unsigned 64-bit integer carries `None`, which every reader treats as
/// absent.
#[verifier::external_body]
fn doc_of_value(v: &serde_json::Value) -> DocValue {
    match v {
        serde_json::Value::Null => DocValue::Null,
        serde_json::Value::Bool(b) => DocValue::Bool(*b),
        serde_json::Value::Number(n) => DocValue::Num(n.as_u64()),
        serde_json::Value::String(s) => DocValue::Str(s.clone()),
        serde_json::Value::Array(a) => DocValue::Arr(a.iter().map(doc_of_value).collect()),
        serde_json::Value::Object(m) => DocValue::Obj(
            m.iter().map(|(k, val)| (k.clone(), doc_of_value(val))).collect(),
        ),
    }
}

/// Relies on serde_json::from_str: the text parses into a value tree exactly
/// when it is well-formed JSON, and the tree depends on the text alone (the
/// parsed objects hold their fields in a fixed order with unique keys).
/// `json_doc` names the tree's reading as a library document.
#[verifier::external_body]
fn parse_json(s: &str) -> (r: Result<DocValue, serde_json::Error>)
    ensures
        match r {
            Result::Ok(d) => json_doc(s@) == Some(d),
            Result::Err(_) => json_doc(s@) is None,
        },
{
    match serde_json::from_str::<serde_json::Value>(s) {
        Ok(v) => Ok(doc_of_value(&v)),
        Err(e) => Err(e),
    }
}

/// Clamps a non-negative total into the `u64` range.
pub open spec fn clip_u64(n: int) -> u64 {
    if n > u64::MAX {
        u64::MAX
    } else if n < 0 {
        0
    } else {
        n as u64
    }
}

/// The total cost of the edges of `edges` that touch node `id`: the incoming
/// (`to == id`) or outgoing (`from == id`) side, the `cpu_user` or `cpu_sys`
/// figure.
pub open spec fn edge_total(edges: Seq<Edge>, id: u64, incoming: bool, user: bool) -> int
    decreases edges.len(),
{
    if edges.len() == 0 {
        0
    } else {
        let e = edges.last();
        let touches = if incoming {
            e.to == id
        } else {
            e.from == id
        };
        let v = if user {
            e.metrics.cpu_user
        } else {
            e.metrics.cpu_sys
        };
        edge_total(edges.drop_last(), id, incoming, user) + if touches {
            v as int
        } else {
            0
        }
    }
}

/// How a built metadata record relates to the raw document.
pub open spec fn metadata_from_doc(d: DocValue, m: Metadata) -> bool {
    let md = get_field(d, "metadata"@);
    &&& m.schema_version@ == str_or(get_field(md, "schema_version"@), ""@)
    &&& m.timestamp == num_or_zero(get_field(md, "timestamp"@))
}

/// How a built process record relates to the raw document.
pub open spec fn process_from_doc(d: DocValue, p: Process) -> bool {
    let pr = get_field(d, "process"@);
    let cu = get_field(pr, "cpu_usage"@);
    &&& p.cpu_usage.system == num_or_zero(get_field(cu, "system"@))
    &&& p.cpu_usage.user == num_or_zero(get_field(cu, "user"@))
    &&& p.memory_usage == num_or_zero(get_field(pr, "memory_usage"@))
    &&& p.pid == num_or_zero(get_field(pr, "pid"@)) as u32
    &&& p.name@ == str_or(get_field(pr, "name"@), ""@)
}

/// How a built edge relates to its raw record.
pub open spec fn edge_from_doc(ed: DocValue, e: Edge) -> bool {
    let m = get_field(ed, "metrics"@);
    &&& is_num(get_field(ed, "from"@)) && e.from == num_or_zero(get_field(ed, "from"@))
    &&& is_num(get_field(ed, "to"@)) && e.to == num_or_zero(get_field(ed, "to"@))
    &&& e.metrics.cpu_user == num_or_zero(get_field(m, "cpu_user"@))
    &&& e.metrics.cpu_sys == num_or_zero(get_field(m, "cpu_sys"@))
}

/// The static fields of a built node against its raw record.
pub open spec fn node_from_doc(nd: DocValue, n: Node) -> bool {
    let loc = get_field(nd, "location"@);
    &&& is_num(get_field(nd, "id"@)) && n.id == num_or_zero(get_field(nd, "id"@))
    &&& n.location.file@ == str_or(get_field(loc, "file"@), ""@)
    &&& n.location.line == num_or_zero(get_field(loc, "line"@))
    &&& n.tag@ == str_or(get_field(nd, "tag"@), ""@)
}

/// The derived metrics of one node, given its thread's edges and aggregate
/// CPU usage: `in`/`out` are the edge totals at the node's id (the node
/// tagged `root` has `in` forced to the thread's aggregate usage), and
/// `self` is `in - out` floored at zero.
pub open spec fn node_metrics_ok(n: Node, edges: Seq<Edge>, cpu: CpuUsage) -> bool {
    &&& n.out_metrics.cpu_user == clip_u64(edge_total(edges, n.id, false, true))
    &&& n.out_metrics.cpu_sys == clip_u64(edge_total(edges, n.id, false, false))
    &&& n.in_metrics.cpu_user == if n.tag@ == "root"@ {
        cpu.user
    } else {
        clip_u64(edge_total(edges, n.id, true, true))
    }
    &&& n.in_metrics.cpu_sys == if n.tag@ == "root"@ {
        cpu.system
    } else {
        clip_u64(edge_total(edges, n.id, true, false))
    }
    &&& n.self_metrics.cpu_user == if n.in_metrics.cpu_user > n.out_metrics.cpu_user {
        (n.in_metrics.cpu_user - n.out_metrics.cpu_user) as u64
    } else {
        0u64
    }
    &&& n.self_metrics.cpu_sys == if n.in_metrics.cpu_sys > n.out_metrics.cpu_sys {
        (n.in_metrics.cpu_sys - n.out_metrics.cpu_sys) as u64
    } else {
        0u64
    }
}

/// The node records of a raw thread.
pub open spec fn thread_nodes_doc(tr: DocValue) -> Seq<DocValue> {
    arr_of(get_field(get_field(tr, "graph"@), "nodes"@))
}

/// The edge records of a raw thread.
pub open spec fn thread_edges_doc(tr: DocValue) -> Seq<DocValue> {
    arr_of(get_field(get_field(tr, "graph"@), "edges"@))
}

/// How a fully built thread relates to its raw record.
pub open spec fn thread_from_doc(tr: DocValue, t: Thread) -> bool {
    let cu = get_field(tr, "cpu_usage"@);
    &&& t.id == num_or_zero(get_field(tr, "id"@))
    &&& t.name@ == str_or(get_field(tr, "name"@), ""@)
    &&& t.metrics.cpu_usage.system == num_or_zero(get_field(cu, "system"@))
    &&& t.metrics.cpu_usage.user == num_or_zero(get_field(cu, "user"@))
    &&& t.metrics.memory_usage == 0
    &&& t.edges@.len() == thread_edges_doc(tr).len()
    &&& forall|j: int|
        0 <= j < t.edges@.len() ==> edge_from_doc(thread_edges_doc(tr)[j], #[trigger] t.edges@[j])
    &&& t.nodes@.len() == thread_nodes_doc(tr).len()
    &&& forall|j: int|
        0 <= j < t.nodes@.len() ==> node_from_doc(thread_nodes_doc(tr)[j], #[trigger] t.nodes@[j])
    &&& forall|j: int|
        0 <= j < t.nodes@.len() ==> node_metrics_ok(
            #[trigger] t.nodes@[j],
            t.edges@,
            t.metrics.cpu_usage,
        )
}

/// A node record that lacks its mandatory id.
pub open spec fn node_doc_bad(nd: DocValue) -> bool {
    !is_num(get_field(nd, "id"@))
}

/// An edge record that lacks a mandatory endpoint.
pub open spec fn edge_doc_bad(ed: DocValue) -> bool {
    !is_num(get_field(ed, "to"@)) || !is_num(get_field(ed, "from"@))
}

/// The failure a raw thread record causes, if any: its node records are
/// examined before its edge records.
pub open spec fn thread_doc_err(tr: DocValue) -> Option<ProfileError> {
    if exists|j: int|
        0 <= j < thread_nodes_doc(tr).len() && node_doc_bad(#[trigger] thread_nodes_doc(tr)[j]) {
        Some(ProfileError::MissingNodeId)
    } else if exists|j: int|
        0 <= j < thread_edges_doc(tr).len() && edge_doc_bad(#[trigger] thread_edges_doc(tr)[j]) {
        Some(ProfileError::MissingEdgeEndpoint)
    } else {
        None
    }
}

/// The first failure among the raw thread records, in input order.
pub open spec fn first_thread_err(ts: Seq<DocValue>) -> Option<ProfileError>
    decreases ts.len(),
{
    if ts.len() == 0 {
        None
    } else if thread_doc_err(ts[0]) is Some {
        thread_doc_err(ts[0])
    } else {
        first_thread_err(ts.drop_first())
    }
}

/// The thread records of a raw trace document.
pub open spec fn threads_doc(d: DocValue) -> Seq<DocValue> {
    arr_of(get_field(d, "threads"@))
}

/// The failure the model builder reports for document `d`, if any.
pub open spec fn doc_err(d: DocValue) -> Option<ProfileError> {
    first_thread_err(threads_doc(d))
}

/// How a fully built profile relates to the raw document.
pub open spec fn profile_from_doc(d: DocValue, p: Profile) -> bool {
    &&& metadata_from_doc(d, p.metadata)
    &&& process_from_doc(d, p.process)
    &&& p.threads@.len() == threads_doc(d).len()
    &&& forall|i: int|
        0 <= i < p.threads@.len() ==> thread_from_doc(threads_doc(d)[i], #[trigger] p.threads@[i])
}

/// What the model builder returns for document `d`: the first failure in
/// scan order, or the fully derived profile.
pub open spec fn build_result_ok(d: DocValue, r: Result<Profile, ProfileError>) -> bool {
    match doc_err(d) {
        Some(e) => match r {
            Result::Err(e2) => e2 == e,
            Result::Ok(_) => false,
        },
        None => match r {
            Result::Ok(p) => profile_from_doc(d, p),
            Result::Err(_) => false,
        },
    }
}

proof fn lemma_first_err_none(ts: Seq<DocValue>)
    requires
        forall|i: int| 0 <= i < ts.len() ==> #[trigger] thread_doc_err(ts[i]) is None,
    ensures
        first_thread_err(ts) is None,
    decreases ts.len(),
{
    if ts.len() > 0 {
        lemma_first_err_none(ts.drop_first());
    }
}

proof fn lemma_first_err_at(ts: Seq<DocValue>, i: int)
    requires
        0 <= i < ts.len(),
        forall|k: int| 0 <= k < i ==> #[trigger] thread_doc_err(ts[k]) is None,
        thread_doc_err(ts[i]) is Some,
    ensures
        first_thread_err(ts) == thread_doc_err(ts[i]),
    decreases ts.len(),
{
    if i > 0 {
        lemma_first_err_at(ts.drop_first(), i - 1);
    }
}

proof fn lemma_edge_total_nonneg(edges: Seq<Edge>, id: u64, incoming: bool, user: bool)
    ensures
        edge_total(edges, id, incoming, user) >= 0,
    decreases edges.len(),
{
    if edges.len() > 0 {
        lemma_edge_total_nonneg(edges.drop_last(), id, incoming, user);
    }
}

/// Adds a cost to a running total, clamping at the integer limit.
fn sat_add(a: u64, b: u64) -> (r: u64)
    ensures
        r == clip_u64(a as int + b as int),
{
    if a > u64::MAX - b {
        u64::MAX
    } else {
        a + b
    }
}

/// The incoming (`to == id`) or outgoing (`from == id`) cost totals of
/// `edges` at node `id`, clamped at `u64::MAX`: `(cpu_user, cpu_sys)`.
fn edge_totals(edges: &Vec<Edge>, id: u64, incoming: bool) -> (r: (u64, u64))
    ensures
        r.0 == clip_u64(edge_total(edges@, id, incoming, true)),
        r.1 == clip_u64(edge_total(edges@, id, incoming, false)),
{
    let mut user: u64 = 0;
    let mut sys: u64 = 0;
    let n = edges.len();
    let mut i: usize = 0;
    proof {
        assert(edges@.take(0) =~= Seq::<Edge>::empty());
    }
    while i < n
        invariant
            i <= n,
            n == edges@.len(),
            user == clip_u64(edge_total(edges@.take(i as int), id, incoming, true)),
            sys == clip_u64(edge_total(edges@.take(i as int), id, incoming, false)),
        decreases n - i,
    {
        proof {
            assert(edges@.take(i + 1).drop_last() =~= edges@.take(i as int));
            assert(edges@.take(i + 1).last() == edges@[i as int]);
            lemma_edge_total_nonneg(edges@.take(i as int), id, incoming, true);
            lemma_edge_total_nonneg(edges@.take(i as int), id, incoming, false);
        }
        let e = &edges[i];
        let touches = if incoming {
            e.to == id
        } else {
            e.from == id
        };
        if touches {
            user = sat_add(user, e.metrics.cpu_user);
            sys = sat_add(sys, e.metrics.cpu_sys);
        }
        i = i + 1;
    }
    proof {
        assert(edges@.take(n as int) =~= edges@);
    }
    (user, sys)
}

impl Profile {
    /// Builds one thread from its raw record: extracts the thread fields,
    /// checks every node and edge record for its mandatory ids, keeps the
    /// edges verbatim, and derives each node's metric pairs from the edge
    /// totals.
    fn build_thread(tr: &DocValue) -> (r: Result<Thread, ProfileError>)
        ensures
            match thread_doc_err(*tr) {
                Some(e) => r matches Err(e2) && e2 == e,
                None => r matches Ok(t) && thread_from_doc(*tr, t),
            },
    {
        let trr = Some(tr);
        let cu = field(trr, "cpu_usage");
        let cpu_usage = CpuUsage {
            system: num_of(field(cu, "system")),
            user: num_of(field(cu, "user")),
        };
        let graph = field(trr, "graph");

        // Every node record must carry its id before any edge is looked at.
        let ndocs = elems(field(graph, "nodes"));
        if let Some(nv) = ndocs {
            let nn = nv.len();
            let mut j: usize = 0;
            while j < nn
                invariant
                    j <= nn,
                    nn == nv@.len(),
                    nv@ == thread_nodes_doc(*tr),
                    forall|k: int| 0 <= k < j ==> !node_doc_bad(#[trigger] nv@[k]),
                decreases nn - j,
            {
                if num_checked(field(Some(&nv[j]), "id")).is_none() {
                    assert(node_doc_bad(thread_nodes_doc(*tr)[j as int]));
                    return Err(ProfileError::MissingNodeId);
                }
                j = j + 1;
            }
        }
        assert(forall|k: int|
            0 <= k < thread_nodes_doc(*tr).len() ==> !node_doc_bad(
                #[trigger] thread_nodes_doc(*tr)[k],
            ));

        // The edges, kept verbatim; their endpoints are mandatory.
        let mut edges: Vec<Edge> = Vec::new();
        let edocs = elems(field(graph, "edges"));
        if let Some(ev) = edocs {
            let ne = ev.len();
            let mut j: usize = 0;
            while j < ne
                invariant
                    j <= ne,
                    ne == ev@.len(),
                    ev@ == thread_edges_doc(*tr),
                    forall|k: int|
                        0 <= k < thread_nodes_doc(*tr).len() ==> !node_doc_bad(
                            #[trigger] thread_nodes_doc(*tr)[k],
                        ),
                    edges@.len() == j,
                    forall|k: int| 0 <= k < j ==> !edge_doc_bad(#[trigger] ev@[k]),
                    forall|k: int|
                        0 <= k < j ==> edge_from_doc(ev@[k], #[trigger] edges@[k]),
                decreases ne - j,
            {
                let ed = Some(&ev[j]);
                let to = num_checked(field(ed, "to"));
                let from = num_checked(field(ed, "from"));
                let (to, from) = match (to, from) {
                    (Some(t), Some(f)) => (t, f),
                    _ => {
                        assert(edge_doc_bad(thread_edges_doc(*tr)[j as int]));
                        return Err(ProfileError::MissingEdgeEndpoint);
                    },
                };
                let m = field(ed, "metrics");
                edges.push(
                    Edge {
                        from,
                        to,
                        metrics: EdgeMetrics {
                            cpu_user: num_of(field(m, "cpu_user")),
                            cpu_sys: num_of(field(m, "cpu_sys")),
                        },
                    },
                );
                j = j + 1;
            }
        }
        assert(forall|k: int|
            0 <= k < thread_edges_doc(*tr).len() ==> !edge_doc_bad(
                #[trigger] thread_edges_doc(*tr)[k],
            ));
        assert(thread_doc_err(*tr) is None);

        // The nodes, each with its derived metric pairs.
        let mut nodes: Vec<Node> = Vec::new();
        let ndocs = elems(field(graph, "nodes"));
        if let Some(nv) = ndocs {
            let nn = nv.len();
            let mut j: usize = 0;
            while j < nn
                invariant
                    j <= nn,
                    nn == nv@.len(),
                    nv@ == thread_nodes_doc(*tr),
                    forall|k: int|
                        0 <= k < nv@.len() ==> !node_doc_bad(#[trigger] nv@[k]),
                    forall|k: int|
                        0 <= k < thread_edges_doc(*tr).len() ==> edge_from_doc(
                            thread_edges_doc(*tr)[k],
                            #[trigger] edges@[k],
                        ),
                    edges@.len() == thread_edges_doc(*tr).len(),
                    nodes@.len() == j,
                    forall|k: int|
                        0 <= k < j ==> node_from_doc(nv@[k], #[trigger] nodes@[k]),
                    forall|k: int|
                        0 <= k < j ==> node_metrics_ok(#[trigger] nodes@[k], edges@, cpu_usage),
                decreases nn - j,
            {
                let nd = Some(&nv[j]);
                let id = num_of(field(nd, "id"));
                let tag = str_of(field(nd, "tag"), "");
                let loc = field(nd, "location");
                let location = FileLocation {
                    file: str_of(field(loc, "file"), ""),
                    line: num_of(field(loc, "line")),
                };
                let (in_user, in_sys) = edge_totals(&edges, id, true);
                let (out_user, out_sys) = edge_totals(&edges, id, false);
                let (in_user, in_sys) = if crate::text::str_eq(tag.as_str(), "root") {
                    (cpu_usage.user, cpu_usage.system)
                } else {
                    (in_user, in_sys)
                };
                let self_user = if in_user > out_user {
                    in_user - out_user
                } else {
                    0
                };
                let self_sys = if in_sys > out_sys {
                    in_sys - out_sys
                } else {
                    0
                };
                nodes.push(
                    Node {
                        id,
                        location,
                        tag,
                        in_metrics: NodeMetrics { cpu_user: in_user, cpu_sys: in_sys },
                        out_metrics: NodeMetrics { cpu_user: out_user, cpu_sys: out_sys },
                        self_metrics: NodeMetrics { cpu_user: self_user, cpu_sys: self_sys },
                    },
                );
                j = j + 1;
            }
        }

        Ok(
            Thread {
                id: num_of(field(trr, "id")),
                name: str_of(field(trr, "name"), ""),
                nodes,
                edges,
                metrics: ThreadMetrics { cpu_usage, memory_usage: 0 },
            },
        )
    }

    /// Builds the typed profile from a raw trace document: metadata and
    /// process copied with defaults, then one thread after the other in
    /// input order. Returns the first failure a thread record causes, and
    /// the fully derived profile otherwise.
    pub fn build(d: &DocValue) -> (r: Result<Profile, ProfileError>)
        ensures
            build_result_ok(*d, r),
    {
        let root = Some(d);
        let md = field(root, "metadata");
        let metadata = Metadata {
            schema_version: str_of(field(md, "schema_version"), ""),
            timestamp: num_of(field(md, "timestamp")),
        };
        let pr = field(root, "process");
        let pcu = field(pr, "cpu_usage");
        let pid64 = num_of(field(pr, "pid"));
        let process = Process {
            cpu_usage: CpuUsage {
                system: num_of(field(pcu, "system")),
                user: num_of(field(pcu, "user")),
            },
            memory_usage: num_of(field(pr, "memory_usage")),
            pid: pid64 as u32,
            name: str_of(field(pr, "name"), ""),
        };

        let mut threads: Vec<Thread> = Vec::new();
        let tdocs = elems(field(root, "threads"));
        if let Some(tv) = tdocs {
            let n = tv.len();
            let mut i: usize = 0;
            while i < n
                invariant
                    i <= n,
                    n == tv@.len(),
                    tv@ == threads_doc(*d),
                    threads@.len() == i,
                    forall|k: int| 0 <= k < i ==> #[trigger] thread_doc_err(tv@[k]) is None,
                    forall|k: int|
                        0 <= k < i ==> thread_from_doc(tv@[k], #[trigger] threads@[k]),
                decreases n - i,
            {
                match Self::build_thread(&tv[i]) {
                    Ok(t) => {
                        threads.push(t);
                    },
                    Err(e) => {
                        proof {
                            lemma_first_err_at(tv@, i as int);
                        }
                        return Err(e);
                    },
                }
                i = i + 1;
            }
        }
        proof {
            lemma_first_err_none(threads_doc(*d));
        }
        Ok(Profile { metadata, process, threads })
    }

    /// Parses raw trace text: the structural parse first (through
    /// serde_json), then the model build on the resulting document. Text
    /// that is not well-formed reports [`ProfileError::Syntax`]; a
    /// well-formed document is handed to [`Profile::build`], whose contract
    /// fixes the rest.
    pub fn parse(s: &str) -> (r: Result<Profile, ProfileError>)
        ensures
            json_doc(s@) is None ==> (r matches Err(e) && e == ProfileError::Syntax),
            json_doc(s@) matches Some(d) ==> build_result_ok(d, r),
    {
        match parse_json(s) {
            Ok(d) => Self::build(&d),
            Err(_) => Err(ProfileError::Syntax),
        }
    }
}

impl ProfileError {
    /// A short description of the failure.
    pub fn message(&self) -> (r: &'static str)
        ensures
            self is Syntax ==> r@ == "input is not a well-formed structured document"@,
            self is MissingNodeId ==> r@ == "a node record lacks its mandatory id"@,
            self is MissingEdgeEndpoint ==> r@ == "an edge record lacks a mandatory endpoint"@,
    {
        match self {
            ProfileError::Syntax => "input is not a well-formed structured document",
            ProfileError::MissingNodeId => "a node record lacks its mandatory id",
            ProfileError::MissingEdgeEndpoint => "an edge record lacks a mandatory endpoint",
        }
    }
}

proof fn lemma_edge_total_untouched(edges: Seq<Edge>, id: u64, incoming: bool, user: bool)
    requires
        forall|k: int|
            0 <= k < edges.len() ==> !(if incoming {
                (#[trigger] edges[k]).to == id
            } else {
                edges[k].from == id
            }),
    ensures
        edge_total(edges, id, incoming, user) == 0,
    decreases edges.len(),
{
    if edges.len() > 0 {
        assert(forall|k: int| 0 <= k < edges.len() - 1 ==> edges.drop_last()[k] == edges[k]);
        lemma_edge_total_untouched(edges.drop_last(), id, incoming, user);
    }
}

/// A node that no edge enters and that is not tagged `root` has `in_metrics`
/// all zero.
pub proof fn lemma_no_incoming_means_in_zero(n: Node, edges: Seq<Edge>, cpu: CpuUsage)
    requires
        node_metrics_ok(n, edges, cpu),
        forall|k: int| 0 <= k < edges.len() ==> (#[trigger] edges[k]).to != n.id,
        n.tag@ != "root"@,
    ensures
        n.in_metrics.cpu_user == 0,
        n.in_metrics.cpu_sys == 0,
{
    lemma_edge_total_untouched(edges, n.id, true, true);
    lemma_edge_total_untouched(edges, n.id, true, false);
}

/// In each metric pair of a built node, self cost is exactly the incoming
/// total minus the outgoing total, floored at zero: it never goes negative.
pub proof fn lemma_self_is_floored_difference(n: Node, edges: Seq<Edge>, cpu: CpuUsage)
    requires
        node_metrics_ok(n, edges, cpu),
    ensures
        n.self_metrics.cpu_user == if n.in_metrics.cpu_user >= n.out_metrics.cpu_user {
            n.in_metrics.cpu_user - n.out_metrics.cpu_user
        } else {
            0
        },
        n.self_metrics.cpu_sys == if n.in_metrics.cpu_sys >= n.out_metrics.cpu_sys {
            n.in_metrics.cpu_sys - n.out_metrics.cpu_sys
        } else {
            0
        },
{
}

/// The node tagged `root` has `in_metrics` equal to its thread's aggregate
/// CPU usage, whatever its incoming edges sum to.
pub proof fn lemma_root_in_is_thread_usage(n: Node, edges: Seq<Edge>, cpu: CpuUsage)
    requires
        node_metrics_ok(n, edges, cpu),
        n.tag@ == "root"@,
    ensures
        n.in_metrics.cpu_user == cpu.user,
        n.in_metrics.cpu_sys == cpu.system,
{
}

} // verus!
