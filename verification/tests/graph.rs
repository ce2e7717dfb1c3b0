use prollyglot_runtime::contracts::CaptureSelection;
use prollyglot_runtime::graph::{
    application_chunk_access, read_chunk, ApplicationNode, CaptureError, ChunkAccess, ChunkMetadata,
    Client, Graph, Port, Sink,
};
use prollyglot_runtime::identity::ProcessIdentity;

fn sink(name: &str, serial: &str) -> Sink {
    Sink {
        name: name.into(),
        serial: serial.into(),
        description: name.into(),
    }
}

#[test]
fn pinned_identity_survives_recreation_and_never_falls_back_to_default() {
    let a = sink("a", "10");
    let selection = CaptureSelection::SystemOutput { device_id: a.id() };
    let mut graph = Graph {
        default_sink: Some("b".into()),
        ..Default::default()
    };
    graph.sinks.insert(20, sink("b", "11"));
    assert!(graph.select(&selection).is_err());
    graph.sinks.insert(21, sink("a", "12"));
    assert_eq!(graph.select(&selection).unwrap().serial, "12");
    assert_eq!(
        graph.select(&CaptureSelection::SystemDefault).unwrap().name,
        "b"
    );
    graph.sinks.insert(22, sink("a", "13"));
    assert!(matches!(
        graph.select(&selection),
        Err(CaptureError::AmbiguousSource(_))
    ));
}

#[test]
fn missing_default_metadata_does_not_choose_an_arbitrary_source() {
    let mut graph = Graph::default();
    graph.sinks.insert(1, sink("speaker", "5"));
    assert!(graph.select(&CaptureSelection::SystemDefault).is_err());
    assert!(graph.snapshot().applications.is_empty());
}

fn client(serial: &str, instance: &str) -> Client {
    Client {
        serial: serial.into(),
        application_id: None,
        name: Some("Fixture".into()),
        process: Some(ProcessIdentity {
            executable: "/private/fixture".into(),
            instance: instance.into(),
        }),
    }
}

fn application(client: u32) -> ApplicationNode {
    ApplicationNode {
        client,
        application_id: Some("org.prollyglot.fixture".into()),
        name: None,
    }
}

#[test]
fn groups_streams_by_application_and_refuses_independent_instances() {
    let mut graph = Graph::default();
    graph.clients.insert(1, client("11", "100:1"));
    graph.clients.insert(2, client("12", "100:1"));
    graph.applications.insert(3, application(1));
    graph.applications.insert(4, application(2));
    let apps = graph.snapshot().applications;
    assert_eq!(apps.len(), 1);
    assert_eq!(apps[0].instance_count, 1);
    assert!(!apps[0].id.contains("private"));
    assert!(graph.application(&apps[0].id).is_ok());
    graph
        .clients
        .get_mut(&2)
        .unwrap()
        .process
        .as_mut()
        .unwrap()
        .instance = "200:1".into();
    assert_eq!(graph.snapshot().applications[0].instance_count, 2);
    assert!(matches!(
        graph.application(&apps[0].id),
        Err(CaptureError::AmbiguousSource(_))
    ));
    graph.applications.remove(&4);
    graph.clients.insert(1, client("30", "300:5"));
    assert_eq!(graph.snapshot().applications[0].id, apps[0].id);
    assert!(graph.application(&apps[0].id).is_ok());
}

#[test]
fn unknown_clients_never_merge_just_because_their_names_match() {
    let mut graph = Graph {
        server_cookie: Some(7),
        ..Default::default()
    };
    for n in 1..=2 {
        graph.clients.insert(
            n,
            Client {
                serial: n.to_string(),
                application_id: None,
                name: Some("Audio player".into()),
                process: None,
            },
        );
        graph.applications.insert(
            n + 10,
            ApplicationNode {
                client: n,
                application_id: None,
                name: None,
            },
        );
    }
    assert_eq!(graph.snapshot().applications.len(), 2);
    let previous = graph.snapshot().applications;
    graph.server_cookie = Some(8);
    assert!(
        graph
            .snapshot()
            .applications
            .iter()
            .all(|app| previous.iter().all(|old| old.id != app.id))
    );
}

#[test]
fn mixes_every_channel_of_each_selected_stream_without_monitoring_outputs() {
    let mut graph = Graph::default();
    graph.clients.insert(1, client("11", "100:1"));
    graph.applications.insert(3, application(1));
    for (id, node, output) in [(10, 3, true), (11, 3, true), (12, 9, true), (13, 3, false)] {
        graph.ports.insert(
            id,
            Port {
                node,
                serial: id.to_string(),
                name: "channel".into(),
                output,
                audio: true,
            },
        );
    }
    let id = &graph.snapshot().applications[0].id;
    let (_, ports) = graph.application(id).unwrap();
    assert_eq!(ports.len(), 2);
    assert!(ports.iter().all(|port| port.node == 3 && port.channels == 2));
    assert_eq!(ports[0].id, 10);
    assert_eq!(ports[1].serial, "11");
}

#[test]
fn identifiers_are_digests_of_private_names() {
    let id = sink("alsa_output.pci", "1").id();
    assert!(id.starts_with("pipewire-output:"));
    let digest = &id["pipewire-output:".len()..];
    assert_eq!(digest.len(), 64);
    assert!(digest.chars().all(|c| c.is_ascii_hexdigit() && !c.is_ascii_uppercase()));
    assert!(!id.contains("alsa"));
    assert_ne!(id, sink("alsa_output.usb", "1").id());
    assert_eq!(id, sink("alsa_output.pci", "9").id());
}

#[test]
fn devices_list_the_default_first_then_by_name_once_each() {
    let mut graph = Graph {
        default_sink: Some("zeta".into()),
        ..Default::default()
    };
    graph.sinks.insert(5, Sink { name: "beta".into(), serial: "1".into(), description: "Beta".into() });
    graph.sinks.insert(6, Sink { name: "zeta".into(), serial: "2".into(), description: "Zeta".into() });
    graph.sinks.insert(7, Sink { name: "alpha".into(), serial: "3".into(), description: "Alpha".into() });
    graph.sinks.insert(8, Sink { name: "alpha".into(), serial: "4".into(), description: "Alpha".into() });
    let devices = graph.snapshot().playback_devices;
    let names: Vec<_> = devices.iter().map(|device| device.name.as_str()).collect();
    assert_eq!(names, ["Zeta", "Alpha", "Beta"]);
    assert!(devices[0].is_default);
    assert!(!devices[1].is_default);
}

#[test]
fn applications_are_listed_by_name() {
    let mut graph = Graph::default();
    for (key, name) in [(1, "Player"), (2, "Browser"), (3, "Chat")] {
        graph.clients.insert(
            key,
            Client {
                serial: key.to_string(),
                application_id: Some(format!("org.example.{name}")),
                name: Some(name.into()),
                process: None,
            },
        );
        graph.applications.insert(key + 10, ApplicationNode { client: key, application_id: None, name: None });
    }
    graph.applications.insert(20, ApplicationNode { client: 99, application_id: None, name: None });
    let names: Vec<_> = graph
        .snapshot()
        .applications
        .into_iter()
        .map(|app| app.name)
        .collect();
    assert_eq!(names, ["Browser", "Chat", "Player"]);
    assert!(matches!(
        graph.application("pipewire-application:unknown"),
        Err(CaptureError::SourceUnavailable(_))
    ));
}

#[test]
fn validates_chunk_bounds_and_reads_wrapped_data() {
    assert_eq!(
        read_chunk(&[1, 2, 3, 4, 5, 6, 7, 8], 6, 4, 4, 4).unwrap(),
        [7, 8, 1, 2]
    );
    assert!(read_chunk(&[0; 8], 0, 12, 4, 4).is_err());
    assert!(read_chunk(&[0; 8], 0, 6, 4, 4).is_err());
    assert!(read_chunk(&[0; 8], 0, 4, 8, 4).is_err());
}

#[test]
fn chunks_wrap_from_any_offset() {
    assert_eq!(read_chunk(&[1, 2, 3, 4], 13, 4, 0, 2).unwrap(), [2, 3, 4, 1]);
    assert_eq!(read_chunk(&[1, 2, 3, 4], 0, 0, 7, 3).unwrap(), Vec::<u8>::new());
    assert!(read_chunk(&[], 0, 4, 0, 4).is_err());
    assert!(read_chunk(&[1, 2, 3, 4], 0, 4, 0, 0).is_err());
    assert!(matches!(
        read_chunk(&[1, 2, 3, 4], 0, 3, 0, 2),
        Err(CaptureError::InvalidFormat(message)) if message == "PipeWire returned an invalid PCM chunk."
    ));
}

#[test]
fn application_buffers_are_read_only_when_their_metadata_allows() {
    let good = ChunkMetadata {
        buffer_present: true,
        planes: 1,
        plane_present: true,
        chunk_present: true,
        corrupted: false,
        empty: false,
        size: 4096,
        mapped: true,
    };
    assert_eq!(application_chunk_access(&good), ChunkAccess::Read);
    assert_eq!(application_chunk_access(&ChunkMetadata { size: 0, ..good }), ChunkAccess::Silent);
    assert_eq!(application_chunk_access(&ChunkMetadata { empty: true, ..good }), ChunkAccess::Silent);
    let refused = |meta: ChunkMetadata| match application_chunk_access(&meta) {
        ChunkAccess::Refused(message) => message,
        other => panic!("expected a refusal, got {other:?}"),
    };
    assert_eq!(refused(ChunkMetadata { buffer_present: false, ..good }), "Missing application audio buffer.");
    assert_eq!(refused(ChunkMetadata { planes: 2, ..good }), "Invalid application audio buffer planes.");
    assert_eq!(refused(ChunkMetadata { plane_present: false, ..good }), "Missing application audio plane.");
    assert_eq!(refused(ChunkMetadata { chunk_present: false, ..good }), "Missing application audio chunk.");
    assert_eq!(
        refused(ChunkMetadata { corrupted: true, size: 0, ..good }),
        "PipeWire reported a corrupted application audio chunk."
    );
    assert_eq!(
        refused(ChunkMetadata { size: 262_148, ..good }),
        "Application audio is unavailable in a mapped PCM buffer."
    );
    assert_eq!(
        refused(ChunkMetadata { mapped: false, ..good }),
        "Application audio is unavailable in a mapped PCM buffer."
    );
    assert_eq!(application_chunk_access(&ChunkMetadata { size: 262_144, ..good }), ChunkAccess::Read);
}
