use prollyglot_runtime::graph::{Graph, Port, Sink};
use prollyglot_runtime::registry::{
    application_node_of, classify, client_evidence, GlobalKind, Properties, RegistryObject,
};

fn props(pairs: &[(&str, &str)]) -> Properties {
    Properties {
        entries: pairs.iter().map(|(key, value)| (key.to_string(), value.to_string())).collect(),
    }
}

#[test]
fn playback_sinks_take_their_description_or_nickname() {
    let sink = classify(
        GlobalKind::Node,
        &props(&[
            ("media.class", "Audio/Sink"),
            ("node.name", "alsa_output.pci"),
            ("object.serial", "41"),
            ("node.nick", "Speakers"),
        ]),
    );
    match sink {
        RegistryObject::Sink(sink) => {
            assert_eq!(sink.name, "alsa_output.pci");
            assert_eq!(sink.serial, "41");
            assert_eq!(sink.description, "Speakers");
        }
        _ => panic!("expected a sink"),
    }
    let unnamed = classify(GlobalKind::Node, &props(&[("media.class", "Audio/Sink")]));
    assert!(matches!(unnamed, RegistryObject::Ignored));
    let stream = classify(GlobalKind::Node, &props(&[("media.class", "Stream/Output/Audio")]));
    assert!(matches!(stream, RegistryObject::OutputStream));
    let microphone = classify(GlobalKind::Node, &props(&[("media.class", "Audio/Source")]));
    assert!(matches!(microphone, RegistryObject::Ignored));
}

#[test]
fn ports_clients_and_metadata_are_recognized() {
    let port = classify(
        GlobalKind::Port,
        &props(&[
            ("node.id", "77"),
            ("object.serial", "901"),
            ("port.name", "output_FL"),
            ("port.direction", "out"),
            ("format.dsp", "32 bit float mono audio"),
        ]),
    );
    match port {
        RegistryObject::Port(port) => assert_eq!(
            port,
            Port {
                node: 77,
                serial: "901".into(),
                name: "output_FL".into(),
                output: true,
                audio: true,
            }
        ),
        _ => panic!("expected a port"),
    }
    let unnumbered = classify(
        GlobalKind::Port,
        &props(&[("node.id", "x"), ("object.serial", "1"), ("port.name", "p")]),
    );
    assert!(matches!(unnumbered, RegistryObject::Ignored));
    match classify(GlobalKind::Client, &props(&[("object.serial", "55")])) {
        RegistryObject::Client { serial } => assert_eq!(serial, "55"),
        _ => panic!("expected a client"),
    }
    assert!(matches!(
        classify(GlobalKind::Client, &props(&[("object.serial", "  ")])),
        RegistryObject::Ignored
    ));
    assert!(matches!(
        classify(GlobalKind::Metadata, &props(&[("metadata.name", "default")])),
        RegistryObject::DefaultMetadata
    ));
    assert!(matches!(
        classify(GlobalKind::Metadata, &props(&[("metadata.name", "settings")])),
        RegistryObject::Ignored
    ));
}

#[test]
fn stream_and_client_details_name_the_application() {
    let node = application_node_of(&props(&[
        ("client.id", "12"),
        ("application.name", "Player"),
        ("application.id", " "),
    ]))
    .expect("client named");
    assert_eq!(node.client, 12);
    assert_eq!(node.name.as_deref(), Some("Player"));
    assert_eq!(node.application_id, None);
    assert!(application_node_of(&props(&[("application.name", "Player")])).is_none());

    let evidence = client_evidence(
        &props(&[
            ("application.process.id", "4000"),
            ("pipewire.sec.pid", "3000"),
            ("pipewire.sec.app-id", "org.example.Player"),
            ("application.id", "player"),
        ]),
        Some(1000),
    );
    assert_eq!(evidence.pid, Some(4000));
    assert_eq!(evidence.uid, Some(1000));
    assert_eq!(evidence.application_id.as_deref(), Some("org.example.Player"));
    let proxied = client_evidence(
        &props(&[("pipewire.sec.pid", "3000"), ("pipewire.sec.uid", "1001")]),
        Some(1000),
    );
    assert_eq!(proxied.pid, Some(3000));
    assert_eq!(proxied.uid, Some(1001));
    let unreadable = client_evidence(&props(&[("application.process.id", "none")]), None);
    assert_eq!(unreadable.pid, None);
    assert_eq!(unreadable.uid, None);
}

#[test]
fn the_default_metadata_names_the_default_sink() {
    let mut graph = Graph::default();
    graph.apply_default_metadata(0, Some("default.audio.sink"), Some("{\"name\":\"alsa_output.pci\"}"));
    assert_eq!(graph.default_sink.as_deref(), Some("alsa_output.pci"));
    graph.apply_default_metadata(0, Some("default.audio.source"), Some("{\"name\":\"mic\"}"));
    assert_eq!(graph.default_sink.as_deref(), Some("alsa_output.pci"));
    graph.apply_default_metadata(3, None, None);
    assert_eq!(graph.default_sink.as_deref(), Some("alsa_output.pci"));
    graph.apply_default_metadata(0, Some("default.audio.sink"), Some("not json"));
    assert_eq!(graph.default_sink, None);
    graph.apply_default_metadata(0, None, Some("{\"name\":\"hdmi\"}"));
    assert_eq!(graph.default_sink.as_deref(), Some("hdmi"));

    graph.sinks.insert(
        5,
        Sink { serial: "1".into(), name: "hdmi".into(), description: "HDMI".into() },
    );
    graph.remove_global(5, false);
    assert!(graph.sinks.is_empty());
    assert_eq!(graph.default_sink.as_deref(), Some("hdmi"));
    graph.remove_global(9, true);
    assert_eq!(graph.default_sink, None);
}
