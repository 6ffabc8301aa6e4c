use std::collections::HashSet;
use scopebox::dot_generator::{DotGenerator, Generator, OutputMode};
use scopebox::models::{
    CpuUsage, Edge, EdgeMetrics, FileLocation, Metadata, Node, NodeMetrics, Process, Profile,
    Thread, ThreadMetrics,
};

fn metrics(cpu_user: u64, cpu_sys: u64) -> NodeMetrics {
    NodeMetrics { cpu_user, cpu_sys }
}

fn sample_profile() -> Profile {
    Profile {
        metadata: Metadata { schema_version: String::from("v1"), timestamp: 17 },
        process: Process {
            cpu_usage: CpuUsage { system: 3, user: 7 },
            memory_usage: 2_500_000,
            pid: 42,
            name: String::from("proc"),
        },
        threads: vec![Thread {
            id: 1,
            name: String::from("main"),
            nodes: vec![
                Node {
                    id: 1,
                    location: FileLocation { file: String::from("/src/app/main.rs"), line: 3 },
                    tag: String::from("root"),
                    in_metrics: metrics(100, 10),
                    out_metrics: metrics(30, 5),
                    self_metrics: metrics(70, 5),
                },
                Node {
                    id: 2,
                    location: FileLocation { file: String::from("util.rs"), line: 9 },
                    tag: String::from("leaf"),
                    in_metrics: metrics(30, 5),
                    out_metrics: metrics(0, 0),
                    self_metrics: metrics(30, 5),
                },
            ],
            edges: vec![Edge { from: 1, to: 2, metrics: EdgeMetrics { cpu_user: 30, cpu_sys: 5 } }],
            metrics: ThreadMetrics {
                cpu_usage: CpuUsage { system: 10, user: 100 },
                memory_usage: 0,
            },
        }],
    }
}

#[test]
fn renders_exact_graph_description() {
    let expected = "digraph G {\n  compound=true;\n  node [shape=box, style=rounded, fontname=\"Arial\"];\n  edge [fontname=\"Arial\", fontsize=10];\n  process_node [label=\"Process 42\\nCPU: user=7ms sys=3ms\\nMemory: 2MB\", shape=component, color=\"#28a745\", penwidth=2, style=filled, fillcolor=white];\n  subgraph cluster_thread_1 {\n    label=\"main 1 (CPU user=100ms sys=10ms)\";\n    style=filled;\n    fillcolor=white;\n    color=black;\n    penwidth=2;\n    cluster_thread_1_entry [shape=point, style=invis];\n    node_1_1 [label=\"root\\nmain.rs:3 | cpu_user: 70/100 cpu_sys: 5/10\"];\n    node_2_1 [label=\"leaf\\nutil.rs:9 | cpu_user: 30/30 cpu_sys: 5/5\"];\n    node_1_1 -> node_2_1 [label=\"cpu_user=30\\ncpu_sys=5\"];\n    }\n  process_node -> cluster_thread_1_entry [lhead=cluster_thread_1, color=\"#6c757d\", style=dashed];\n}";
    let out = DotGenerator::generate(&sample_profile(), &HashSet::new());
    assert_eq!(out, expected);
}

#[test]
fn rendering_is_deterministic() {
    let p = sample_profile();
    let enabled: HashSet<String> = ["cpu_user", "cpu_sys"].iter().map(|s| s.to_string()).collect();
    let a = DotGenerator::generate(&p, &enabled);
    let b = DotGenerator::generate(&p, &enabled);
    assert_eq!(a, b);
    // The enabled set is advisory: all captured metrics render regardless.
    let c = DotGenerator::generate(&p, &HashSet::new());
    assert_eq!(a, c);
}

#[test]
fn renders_empty_profile() {
    let p = Profile {
        metadata: Metadata { schema_version: String::new(), timestamp: 0 },
        process: Process {
            cpu_usage: CpuUsage { system: 0, user: 0 },
            memory_usage: 0,
            pid: 0,
            name: String::new(),
        },
        threads: vec![],
    };
    let expected = "digraph G {\n  compound=true;\n  node [shape=box, style=rounded, fontname=\"Arial\"];\n  edge [fontname=\"Arial\", fontsize=10];\n  process_node [label=\"Process 0\\nCPU: user=0ms sys=0ms\\nMemory: 0MB\", shape=component, color=\"#28a745\", penwidth=2, style=filled, fillcolor=white];\n}";
    assert_eq!(DotGenerator::generate(&p, &HashSet::new()), expected);
}

#[test]
fn dangling_edge_still_renders() {
    // An edge to an id with no matching node is emitted anyway.
    let mut p = sample_profile();
    p.threads[0].edges.push(Edge { from: 2, to: 77, metrics: EdgeMetrics { cpu_user: 1, cpu_sys: 0 } });
    let out = DotGenerator::generate(&p, &HashSet::new());
    assert!(out.contains("    node_2_1 -> node_77_1 [label=\"cpu_user=1\\ncpu_sys=0\"];"));
}

#[test]
fn unsupported_mode_is_reported() {
    assert_eq!(OutputMode::from_name("html"), OutputMode::Unsupported);
    assert_eq!(OutputMode::from_name("svg"), OutputMode::Unsupported);
    assert_eq!(OutputMode::from_name(""), OutputMode::Unsupported);
    assert_eq!(OutputMode::from_name("dot"), OutputMode::Dot);
    assert_eq!(OutputMode::from_name("json"), OutputMode::Json);
}

#[test]
fn threads_render_in_profile_order() {
    let mut p = sample_profile();
    let mut second = sample_profile().threads.remove(0);
    second.id = 2;
    second.name = String::from("aux");
    p.threads.push(second);
    let out = DotGenerator::generate(&p, &HashSet::new());
    let first = out.find("subgraph cluster_thread_1 {").unwrap();
    let later = out.find("subgraph cluster_thread_2 {").unwrap();
    assert!(first < later);
}
