use scopebox::models::{
    CpuUsage, Edge, EdgeMetrics, FileLocation, Metadata, Node, NodeMetrics, Process, Profile,
    Thread, ThreadMetrics,
};

fn sample_profile() -> Profile {
    Profile {
        metadata: Metadata { schema_version: String::from("2.1"), timestamp: 99 },
        process: Process {
            cpu_usage: CpuUsage { system: 4, user: 11 },
            memory_usage: 3_000_000,
            pid: 77,
            name: String::from("svc"),
        },
        threads: vec![
            Thread {
                id: 9,
                name: String::from("main"),
                nodes: vec![Node {
                    id: 1,
                    location: FileLocation { file: String::from("src/run.rs"), line: 12 },
                    tag: String::from("root"),
                    in_metrics: NodeMetrics { cpu_user: 100, cpu_sys: 10 },
                    out_metrics: NodeMetrics { cpu_user: 30, cpu_sys: 5 },
                    self_metrics: NodeMetrics { cpu_user: 70, cpu_sys: 5 },
                }],
                edges: vec![Edge {
                    from: 1,
                    to: 2,
                    metrics: EdgeMetrics { cpu_user: 30, cpu_sys: 5 },
                }],
                metrics: ThreadMetrics {
                    cpu_usage: CpuUsage { system: 10, user: 100 },
                    memory_usage: 0,
                },
            },
            Thread {
                id: 10,
                name: String::from("idle"),
                nodes: vec![],
                edges: vec![],
                metrics: ThreadMetrics {
                    cpu_usage: CpuUsage { system: 0, user: 0 },
                    memory_usage: 0,
                },
            },
        ],
    }
}

fn assert_profiles_equal(a: &Profile, b: &Profile) {
    assert_eq!(a.metadata.schema_version, b.metadata.schema_version);
    assert_eq!(a.metadata.timestamp, b.metadata.timestamp);
    assert_eq!(a.process.cpu_usage.system, b.process.cpu_usage.system);
    assert_eq!(a.process.cpu_usage.user, b.process.cpu_usage.user);
    assert_eq!(a.process.memory_usage, b.process.memory_usage);
    assert_eq!(a.process.pid, b.process.pid);
    assert_eq!(a.process.name, b.process.name);
    assert_eq!(a.threads.len(), b.threads.len());
    for (ta, tb) in a.threads.iter().zip(b.threads.iter()) {
        assert_eq!(ta.id, tb.id);
        assert_eq!(ta.name, tb.name);
        assert_eq!(ta.metrics.cpu_usage.system, tb.metrics.cpu_usage.system);
        assert_eq!(ta.metrics.cpu_usage.user, tb.metrics.cpu_usage.user);
        assert_eq!(ta.metrics.memory_usage, tb.metrics.memory_usage);
        assert_eq!(ta.nodes.len(), tb.nodes.len());
        for (na, nb) in ta.nodes.iter().zip(tb.nodes.iter()) {
            assert_eq!(na.id, nb.id);
            assert_eq!(na.location.file, nb.location.file);
            assert_eq!(na.location.line, nb.location.line);
            assert_eq!(na.tag, nb.tag);
            assert_eq!(na.in_metrics.cpu_user, nb.in_metrics.cpu_user);
            assert_eq!(na.in_metrics.cpu_sys, nb.in_metrics.cpu_sys);
            assert_eq!(na.out_metrics.cpu_user, nb.out_metrics.cpu_user);
            assert_eq!(na.out_metrics.cpu_sys, nb.out_metrics.cpu_sys);
            assert_eq!(na.self_metrics.cpu_user, nb.self_metrics.cpu_user);
            assert_eq!(na.self_metrics.cpu_sys, nb.self_metrics.cpu_sys);
        }
        assert_eq!(ta.edges.len(), tb.edges.len());
        for (ea, eb) in ta.edges.iter().zip(tb.edges.iter()) {
            assert_eq!(ea.from, eb.from);
            assert_eq!(ea.to, eb.to);
            assert_eq!(ea.metrics.cpu_user, eb.metrics.cpu_user);
            assert_eq!(ea.metrics.cpu_sys, eb.metrics.cpu_sys);
        }
    }
}

#[test]
fn round_trip_restores_every_field() {
    let p = sample_profile();
    let doc = p.to_doc();
    let q = Profile::from_doc(&doc);
    assert_profiles_equal(&p, &q);
}

#[test]
fn round_trip_of_built_profile() {
    let json = r#"{
        "metadata": {"schema_version": "2.1", "timestamp": 99},
        "process": {"cpu_usage": {"user": 11, "system": 4}, "memory_usage": 3000000, "pid": 77, "name": "svc"},
        "threads": [{
            "id": 9, "name": "main",
            "cpu_usage": {"user": 100, "system": 10},
            "graph": {
                "nodes": [{"id": 1, "tag": "root", "location": {"file": "src/run.rs", "line": 12}}],
                "edges": [{"from": 1, "to": 2, "metrics": {"cpu_user": 30, "cpu_sys": 5}}]
            }
        }]
    }"#;
    let p = Profile::parse(json).unwrap();
    let q = Profile::from_doc(&p.to_doc());
    assert_profiles_equal(&p, &q);
}
