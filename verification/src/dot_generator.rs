//! The graph renderer: serializes a populated [`Profile`] into a textual
//! directed-graph description that a generic graph-layout viewer can render.
//!
//! Rendering is a pure formatting pass — string interpolation and path
//! basename extraction, nothing else — and is deterministic and
//! order-preserving: threads in profile order, nodes and edges within a
//! thread in their input order.

use std::collections::HashSet;
use vstd::prelude::*;
use vstd::string::*;
use crate::models::{Edge, Node, Process, Profile, Thread};
use crate::text::{basename, basename_of, dec, str_eq, u64_str};

verus! {

/// The fixed opening of the graph description: the root graph declaration
/// (cross-cluster edges enabled) and the default node and edge styles.
pub open spec fn header_text() -> Seq<char> {
    "digraph G {"@ + "\n  compound=true;"@
        + "\n  node [shape=box, style=rounded, fontname=\"Arial\"];"@
        + "\n  edge [fontname=\"Arial\", fontsize=10];"@
}

/// The declaration of the node that stands for the whole process: pid, CPU
/// times, and memory in whole megabytes.
pub open spec fn process_text(p: Process) -> Seq<char> {
    "\n  process_node [label=\"Process "@ + dec(p.pid as nat) + "\\nCPU: user="@ + dec(
        p.cpu_usage.user as nat,
    ) + "ms sys="@ + dec(p.cpu_usage.system as nat) + "ms\\nMemory: "@ + dec(
        (p.memory_usage / 1000000) as nat,
    ) + "MB\", shape=component, color=\"#28a745\", penwidth=2, style=filled, fillcolor=white];"@
}

/// One node declaration: identifier namespaced by thread id, label with tag,
/// source basename and line, and the used/total cost pairs.
pub open spec fn node_text(n: Node, tid: u64) -> Seq<char> {
    "\n    node_"@ + dec(n.id as nat) + "_"@ + dec(tid as nat) + " [label=\""@ + n.tag@ + "\\n"@
        + basename(n.location.file@) + ":"@ + dec(n.location.line as nat) + " | cpu_user: "@
        + dec(n.self_metrics.cpu_user as nat) + "/"@ + dec(n.in_metrics.cpu_user as nat)
        + " cpu_sys: "@ + dec(n.self_metrics.cpu_sys as nat) + "/"@ + dec(
        n.in_metrics.cpu_sys as nat,
    ) + "\"];"@
}

/// One edge declaration, annotated with the edge's cost.
pub open spec fn edge_text(e: Edge, tid: u64) -> Seq<char> {
    "\n    node_"@ + dec(e.from as nat) + "_"@ + dec(tid as nat) + " -> node_"@ + dec(e.to as nat)
        + "_"@ + dec(tid as nat) + " [label=\"cpu_user="@ + dec(e.metrics.cpu_user as nat)
        + "\\ncpu_sys="@ + dec(e.metrics.cpu_sys as nat) + "\"];"@
}

/// The node declarations of one thread, in input order.
pub open spec fn nodes_text(nodes: Seq<Node>, tid: u64) -> Seq<char>
    decreases nodes.len(),
{
    if nodes.len() == 0 {
        Seq::empty()
    } else {
        nodes_text(nodes.drop_last(), tid) + node_text(nodes.last(), tid)
    }
}

/// The edge declarations of one thread, in input order.
pub open spec fn edges_text(edges: Seq<Edge>, tid: u64) -> Seq<char>
    decreases edges.len(),
{
    if edges.len() == 0 {
        Seq::empty()
    } else {
        edges_text(edges.drop_last(), tid) + edge_text(edges.last(), tid)
    }
}

/// The opening of one thread's cluster: the subgraph declaration, its label
/// and style, and the invisible entry point used as an edge-routing target.
pub open spec fn cluster_head(t: Thread) -> Seq<char> {
    "\n  subgraph cluster_thread_"@ + dec(t.id as nat) + " {\n    label=\""@ + t.name@ + " "@
        + dec(t.id as nat) + " (CPU user="@ + dec(t.metrics.cpu_usage.user as nat) + "ms sys="@
        + dec(t.metrics.cpu_usage.system as nat)
        + "ms)\";\n    style=filled;\n    fillcolor=white;\n    color=black;\n    penwidth=2;\n    cluster_thread_"@
        + dec(t.id as nat) + "_entry [shape=point, style=invis];"@
}

/// The close of one thread's cluster, followed by the dashed arc from the
/// process node to the cluster's entry point.
pub open spec fn cluster_close(t: Thread) -> Seq<char> {
    "\n    }"@ + "\n  process_node -> cluster_thread_"@ + dec(t.id as nat)
        + "_entry [lhead=cluster_thread_"@ + dec(t.id as nat) + ", color=\"#6c757d\", style=dashed];"@
}

/// One thread's whole cluster.
pub open spec fn cluster_text(t: Thread) -> Seq<char> {
    cluster_head(t) + nodes_text(t.nodes@, t.id) + edges_text(t.edges@, t.id) + cluster_close(t)
}

/// The clusters of all threads, in profile order.
pub open spec fn clusters_text(ts: Seq<Thread>) -> Seq<char>
    decreases ts.len(),
{
    if ts.len() == 0 {
        Seq::empty()
    } else {
        clusters_text(ts.drop_last()) + cluster_text(ts.last())
    }
}

/// The whole rendered graph description of a profile.
pub open spec fn render_text(p: Profile) -> Seq<char> {
    header_text() + process_text(p.process) + clusters_text(p.threads@) + "\n}"@
}

/// Appends `n` in decimal.
fn push_num(out: &mut String, n: u64)
    ensures
        final(out)@ == old(out)@ + dec(n as nat),
{
    let s = u64_str(n);
    out.append(s.as_str());
}

fn push_process(out: &mut String, p: &Process)
    ensures
        final(out)@ == old(out)@ + process_text(*p),
{
    out.append("\n  process_node [label=\"Process ");
    push_num(out, p.pid as u64);
    out.append("\\nCPU: user=");
    push_num(out, p.cpu_usage.user);
    out.append("ms sys=");
    push_num(out, p.cpu_usage.system);
    out.append("ms\\nMemory: ");
    push_num(out, p.memory_usage / 1000000);
    out.append("MB\", shape=component, color=\"#28a745\", penwidth=2, style=filled, fillcolor=white];");
    proof {
        assert(dec((p.pid as u64) as nat) == dec(p.pid as nat));
        assert(out@ =~= old(out)@ + process_text(*p));
    }
}

#[verifier::rlimit(60)]
fn push_node(out: &mut String, n: &Node, tid: u64)
    ensures
        final(out)@ == old(out)@ + node_text(*n, tid),
{
    out.append("\n    node_");
    push_num(out, n.id);
    out.append("_");
    push_num(out, tid);
    out.append(" [label=\"");
    out.append(n.tag.as_str());
    out.append("\\n");
    let b = basename_of(n.location.file.as_str());
    out.append(b.as_str());
    out.append(":");
    push_num(out, n.location.line);
    out.append(" | cpu_user: ");
    push_num(out, n.self_metrics.cpu_user);
    out.append("/");
    push_num(out, n.in_metrics.cpu_user);
    out.append(" cpu_sys: ");
    push_num(out, n.self_metrics.cpu_sys);
    out.append("/");
    push_num(out, n.in_metrics.cpu_sys);
    out.append("\"];");
    proof {
        assert(out@ =~= old(out)@ + node_text(*n, tid));
    }
}

fn push_edge(out: &mut String, e: &Edge, tid: u64)
    ensures
        final(out)@ == old(out)@ + edge_text(*e, tid),
{
    out.append("\n    node_");
    push_num(out, e.from);
    out.append("_");
    push_num(out, tid);
    out.append(" -> node_");
    push_num(out, e.to);
    out.append("_");
    push_num(out, tid);
    out.append(" [label=\"cpu_user=");
    push_num(out, e.metrics.cpu_user);
    out.append("\\ncpu_sys=");
    push_num(out, e.metrics.cpu_sys);
    out.append("\"];");
    proof {
        assert(out@ =~= old(out)@ + edge_text(*e, tid));
    }
}

#[verifier::rlimit(60)]
fn push_cluster(out: &mut String, t: &Thread)
    ensures
        final(out)@ == old(out)@ + cluster_text(*t),
{
    out.append("\n  subgraph cluster_thread_");
    push_num(out, t.id);
    out.append(" {\n    label=\"");
    out.append(t.name.as_str());
    out.append(" ");
    push_num(out, t.id);
    out.append(" (CPU user=");
    push_num(out, t.metrics.cpu_usage.user);
    out.append("ms sys=");
    push_num(out, t.metrics.cpu_usage.system);
    out.append(
        "ms)\";\n    style=filled;\n    fillcolor=white;\n    color=black;\n    penwidth=2;\n    cluster_thread_",
    );
    push_num(out, t.id);
    out.append("_entry [shape=point, style=invis];");
    proof {
        assert(out@ =~= old(out)@ + cluster_head(*t));
    }

    let nn = t.nodes.len();
    let mut j: usize = 0;
    proof {
        assert(t.nodes@.take(0) =~= Seq::<Node>::empty());
        assert(nodes_text(t.nodes@.take(0), t.id) =~= Seq::<char>::empty());
        assert(out@ =~= old(out)@ + cluster_head(*t) + nodes_text(t.nodes@.take(0), t.id));
    }
    while j < nn
        invariant
            j <= nn,
            nn == t.nodes@.len(),
            out@ == old(out)@ + cluster_head(*t) + nodes_text(t.nodes@.take(j as int), t.id),
        decreases nn - j,
    {
        push_node(out, &t.nodes[j], t.id);
        proof {
            assert(t.nodes@.take(j + 1).drop_last() =~= t.nodes@.take(j as int));
            assert(t.nodes@.take(j + 1).last() == t.nodes@[j as int]);
            assert(out@ =~= old(out)@ + cluster_head(*t) + nodes_text(
                t.nodes@.take(j + 1),
                t.id,
            ));
        }
        j = j + 1;
    }
    proof {
        assert(t.nodes@.take(nn as int) =~= t.nodes@);
    }

    let ne = t.edges.len();
    let mut j: usize = 0;
    proof {
        assert(t.edges@.take(0) =~= Seq::<Edge>::empty());
        assert(out@ =~= old(out)@ + cluster_head(*t) + nodes_text(t.nodes@, t.id) + edges_text(
            t.edges@.take(0),
            t.id,
        ));
    }
    while j < ne
        invariant
            j <= ne,
            ne == t.edges@.len(),
            out@ == old(out)@ + cluster_head(*t) + nodes_text(t.nodes@, t.id) + edges_text(
                t.edges@.take(j as int),
                t.id,
            ),
        decreases ne - j,
    {
        push_edge(out, &t.edges[j], t.id);
        proof {
            assert(t.edges@.take(j + 1).drop_last() =~= t.edges@.take(j as int));
            assert(t.edges@.take(j + 1).last() == t.edges@[j as int]);
            assert(out@ =~= old(out)@ + cluster_head(*t) + nodes_text(t.nodes@, t.id)
                + edges_text(t.edges@.take(j + 1), t.id));
        }
        j = j + 1;
    }
    proof {
        assert(t.edges@.take(ne as int) =~= t.edges@);
    }

    out.append("\n    }");
    out.append("\n  process_node -> cluster_thread_");
    push_num(out, t.id);
    out.append("_entry [lhead=cluster_thread_");
    push_num(out, t.id);
    out.append(", color=\"#6c757d\", style=dashed];");
    proof {
        assert(out@ =~= old(out)@ + cluster_text(*t));
    }
}

/// A renderer of profiles into some textual graph description. The enabled
/// metric set is advisory: an implementation fixes, through its
/// `spec_generate`, how (and whether) it honors it.
pub trait Generator {
    /// The exact text this renderer produces.
    spec fn spec_generate(profile: Profile, enabled: Set<String>) -> Seq<char>;

    /// Renders `profile`: the output is a function of the profile and the
    /// enabled set alone, so rendering an unchanged profile again reproduces
    /// the same text.
    fn generate(profile: &Profile, enabled: &HashSet<String>) -> (r: String)
        ensures
            r@ == Self::spec_generate(*profile, enabled@),
    ;
}

/// Renders the directed-graph description of [`render_text`]. By design it
/// renders all captured metrics regardless of the enabled set.
pub struct DotGenerator;

impl Generator for DotGenerator {
    /// The full graph description; the enabled set does not influence it.
    open spec fn spec_generate(profile: Profile, enabled: Set<String>) -> Seq<char> {
        render_text(profile)
    }

    fn generate(profile: &Profile, _enabled: &HashSet<String>) -> (r: String) {
        let mut out = String::new();
        out.append("digraph G {");
        out.append("\n  compound=true;");
        out.append("\n  node [shape=box, style=rounded, fontname=\"Arial\"];");
        out.append("\n  edge [fontname=\"Arial\", fontsize=10];");
        proof {
            assert(out@ =~= header_text());
        }
        push_process(&mut out, &profile.process);

        let n = profile.threads.len();
        let mut i: usize = 0;
        proof {
            assert(profile.threads@.take(0) =~= Seq::<Thread>::empty());
            assert(out@ =~= header_text() + process_text(profile.process) + clusters_text(
                profile.threads@.take(0),
            ));
        }
        while i < n
            invariant
                i <= n,
                n == profile.threads@.len(),
                out@ == header_text() + process_text(profile.process) + clusters_text(
                    profile.threads@.take(i as int),
                ),
            decreases n - i,
        {
            push_cluster(&mut out, &profile.threads[i]);
            proof {
                assert(profile.threads@.take(i + 1).drop_last() =~= profile.threads@.take(
                    i as int,
                ));
                assert(profile.threads@.take(i + 1).last() == profile.threads@[i as int]);
                assert(out@ =~= header_text() + process_text(profile.process) + clusters_text(
                    profile.threads@.take(i + 1),
                ));
            }
            i = i + 1;
        }
        proof {
            assert(profile.threads@.take(n as int) =~= profile.threads@);
        }
        out.append("\n}");
        proof {
            assert(out@ =~= render_text(*profile));
        }
        out
    }
}

/// Which output format a conversion run was asked for.
#[derive(Debug, PartialEq, Eq, Structural, Clone, Copy)]
pub enum OutputMode {
    /// The textual graph description of [`DotGenerator`].
    Dot,
    /// The lossless reflection of the profile as a structured document.
    Json,
    /// Any other name: reported as unsupported, and no output is produced.
    Unsupported,
}

/// The output mode a format name selects.
pub open spec fn mode_of(s: Seq<char>) -> OutputMode {
    if s == "dot"@ {
        OutputMode::Dot
    } else if s == "json"@ {
        OutputMode::Json
    } else {
        OutputMode::Unsupported
    }
}

/// Every format name other than `dot` and `json` selects
/// [`OutputMode::Unsupported`]: such a run reports the unsupported outcome,
/// and no renderer is invoked for it, so no output is produced.
pub proof fn lemma_unknown_name_is_unsupported(s: Seq<char>)
    requires
        s != "dot"@,
        s != "json"@,
    ensures
        mode_of(s) == OutputMode::Unsupported,
{
}

impl OutputMode {
    /// Selects the output mode by format name; any unknown name is
    /// [`OutputMode::Unsupported`].
    pub fn from_name(format: &str) -> (m: OutputMode)
        ensures
            m == mode_of(format@),
    {
        if str_eq(format, "dot") {
            OutputMode::Dot
        } else if str_eq(format, "json") {
            OutputMode::Json
        } else {
            OutputMode::Unsupported
        }
    }
}

} // verus!
