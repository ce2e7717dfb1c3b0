use prollyglot_runtime::graph::{Graph, MonitorPort, Port};
use prollyglot_runtime::monitor_inputs::{
    added_targets, capture_port_name, kept_inputs, stale_inputs,
};

fn target(id: u32, serial: &str) -> MonitorPort {
    MonitorPort { id, node: 40, serial: serial.into(), channels: 2 }
}

#[test]
fn inputs_follow_the_targets_by_port_and_serial() {
    let inputs = vec![target(3, "a"), target(5, "b"), target(9, "c")];
    // Port 5 came back under a new serial; port 9 went away; 12 is new.
    let targets = vec![target(12, "d"), target(3, "a"), target(5, "b2"), target(12, "d")];
    assert_eq!(stale_inputs(&inputs, &targets), vec![5, 9]);
    let kept = kept_inputs(&inputs, &targets);
    assert_eq!(kept, vec![3]);
    assert_eq!(added_targets(&kept, &targets), vec![0, 2]);
    assert_eq!(added_targets(&kept, &[].to_vec()), Vec::<usize>::new());
}

#[test]
fn new_inputs_bind_only_ports_of_the_capture_node() {
    let name = capture_port_name("88");
    assert_eq!(name, "capture_88");
    let mut graph = Graph::default();
    let port = |node: u32, name: &str, output: bool| Port {
        node,
        serial: "1".into(),
        name: name.into(),
        output,
        audio: true,
    };
    graph.ports.insert(4, port(7, "capture_88", false));
    graph.ports.insert(6, port(9, "capture_88", true));
    graph.ports.insert(8, port(9, "capture_88", false));
    graph.ports.insert(11, port(9, "capture_88", false));
    assert_eq!(graph.own_input_port(9, &name), Some(8));
    assert_eq!(graph.own_input_port(7, &name), Some(4));
    assert_eq!(graph.own_input_port(9, "capture_1"), None);
    assert_eq!(graph.own_input_port(5, &name), None);
}
