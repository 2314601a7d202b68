use spectrak::ports::{
    connect_in_order, connection_pairs, port_name, qualified_port_name, NodePorts, PlaybackSystem, PortName,
};
use std::cell::RefCell;

#[test]
fn port_name_joins_basename_and_index() {
    assert_eq!(port_name("out", 2), "out_2");
    assert_eq!(port_name("in", 1), "in_1");
}

#[test]
fn port_name_writes_every_digit() {
    assert_eq!(port_name("p", 0), "p_0");
    assert_eq!(port_name("p", 10), "p_10");
    assert_eq!(port_name("p", 1234567890), "p_1234567890");
    assert_eq!(port_name("p", -7), "p_-7");
    assert_eq!(port_name("p", i64::MIN), "p_-9223372036854775808");
    assert_eq!(port_name("p", i64::MAX), "p_9223372036854775807");
}

#[test]
fn qualified_name_of_generator_port() {
    assert_eq!(qualified_port_name("gen", "out", 2), "gen:out_2");
}

#[test]
fn playback_system_ports() {
    let system = PlaybackSystem::new();
    assert_eq!(system.client_port_name(1), "system:playback_1");
    assert_eq!(system.client_port_name(2), "system:playback_2");
}

#[test]
fn connection_pairs_match_indices() {
    let gen = NodePorts::new("gen", "out");
    let pairs = connection_pairs(&gen, &PlaybackSystem::new().ports());
    assert_eq!(pairs.len(), 2);
    assert_eq!(pairs[0], ("gen:out_1".to_string(), "system:playback_1".to_string()));
    assert_eq!(pairs[1], ("gen:out_2".to_string(), "system:playback_2".to_string()));
}

#[test]
fn connection_pairs_between_nodes() {
    let gen = NodePorts::new("sine_gen", "out");
    let fft = NodePorts::new("fft_proc", "in");
    let pairs = connection_pairs(&gen, &fft);
    assert_eq!(pairs[0].0, "sine_gen:out_1");
    assert_eq!(pairs[0].1, "fft_proc:in_1");
    assert_eq!(pairs[1].0, "sine_gen:out_2");
    assert_eq!(pairs[1].1, "fft_proc:in_2");
}

#[test]
fn node_ports_name_their_ports() {
    let gen = NodePorts::new("gen", "out");
    assert_eq!(gen.client_port_name(2), "gen:out_2");
    assert_eq!(gen.client_port_name(1), "gen:out_1");
    let system = PlaybackSystem::new().ports();
    assert_eq!(system.node_name, "system");
    assert_eq!(system.port_basename, "playback");
}

#[test]
fn connect_in_order_stops_at_first_refusal() {
    let pairs = connection_pairs(&NodePorts::new("gen", "out"), &NodePorts::new("fft", "in"));
    let asked = RefCell::new(Vec::new());
    let refuse_first = |a: &str, b: &str| -> bool {
        asked.borrow_mut().push((a.to_string(), b.to_string()));
        false
    };
    let e = connect_in_order(&pairs, &refuse_first).err().unwrap();
    assert_eq!(e.source_port, "gen:out_1");
    assert_eq!(e.destination_port, "fft:in_1");
    assert_eq!(asked.borrow().len(), 1);
}

#[test]
fn connect_in_order_keeps_earlier_pairs() {
    let pairs = connection_pairs(&NodePorts::new("gen", "out"), &PlaybackSystem::new().ports());
    let connected = RefCell::new(Vec::new());
    let refuse_second = |a: &str, b: &str| -> bool {
        if a.ends_with("_2") {
            return false;
        }
        connected.borrow_mut().push((a.to_string(), b.to_string()));
        true
    };
    let e = connect_in_order(&pairs, &refuse_second).err().unwrap();
    assert_eq!(e.source_port, "gen:out_2");
    assert_eq!(e.destination_port, "system:playback_2");
    assert_eq!(
        *connected.borrow(),
        vec![("gen:out_1".to_string(), "system:playback_1".to_string())]
    );
}

#[test]
fn connect_in_order_connects_all() {
    let pairs = connection_pairs(&NodePorts::new("gen", "out"), &NodePorts::new("fft", "in"));
    let asked = RefCell::new(0usize);
    let accept = |_: &str, _: &str| -> bool {
        *asked.borrow_mut() += 1;
        true
    };
    assert!(connect_in_order(&pairs, &accept).is_ok());
    assert_eq!(*asked.borrow(), 2);
}

#[test]
fn playback_system_names_through_its_own_method() {
    let system = PlaybackSystem::new();
    assert_eq!(PlaybackSystem::client_port_name(&system, 1), "system:playback_1");
    assert_eq!(PortName::client_port_name(&system, 2), "system:playback_2");
}
