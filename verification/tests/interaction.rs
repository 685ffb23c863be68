use vel_node::data_type::MyDataType;
use vel_node::graph::{ConnectError, Connection, Graph, InputRef, NodeId, OutputRef};
use vel_node::state::{MyGraphState, MyResponse};
use vel_node::template::{create_node, MyNodeTemplate};
use vel_node::value::MyValueType;

#[test]
fn new_document_has_no_active_node() {
    assert_eq!(MyGraphState::new().active_node, None);
    assert_eq!(MyGraphState::default().active_node, None);
}

#[test]
fn reducer_set_and_clear() {
    let mut s = MyGraphState::new();
    let n = NodeId { idx: 3 };
    s.apply_response(MyResponse::SetActiveNode(n));
    assert_eq!(s.active_node, Some(n));
    s.apply_response(MyResponse::ClearActiveNode);
    assert_eq!(s.active_node, None);
}

#[test]
fn reducer_is_idempotent() {
    let n = NodeId { idx: 5 };
    let mut s = MyGraphState::new();
    s.apply_response(MyResponse::SetActiveNode(n));
    assert_eq!(s.active_node, Some(n));
    s.apply_response(MyResponse::SetActiveNode(n));
    assert_eq!(s.active_node, Some(n));
    s.apply_response(MyResponse::ClearActiveNode);
    assert_eq!(s.active_node, None);
    s.apply_response(MyResponse::ClearActiveNode);
    assert_eq!(s.active_node, None);
}

#[test]
fn activate_and_clear_scenario() {
    let mut g = Graph::new();
    let mut s = MyGraphState::new();
    assert_eq!(s.active_node, None);

    let n1 = create_node(&mut g, MyNodeTemplate::MakeScalar);
    let node = g.slots[n1.idx].as_ref().unwrap();
    assert_eq!(node.inputs.len(), 1);
    assert_eq!(node.inputs[0].name, "value");
    assert_eq!(node.inputs[0].typ, MyDataType::Scalar);
    assert_eq!(node.inputs[0].value, MyValueType::Scalar { value: 0.0f32.to_bits() });
    assert_eq!(node.outputs.len(), 1);
    assert_eq!(node.outputs[0].name, "out");
    assert_eq!(node.outputs[0].typ, MyDataType::Scalar);

    assert!(!s.is_active(n1));
    let r = s.click_response(n1);
    assert_eq!(r, MyResponse::SetActiveNode(n1));
    s.apply_response(r);
    assert_eq!(s.active_node, Some(n1));

    assert!(s.is_active(n1));
    let r = s.click_response(n1);
    assert_eq!(r, MyResponse::ClearActiveNode);
    s.apply_response(r);
    assert_eq!(s.active_node, None);
}

#[test]
fn incompatible_connection_is_rejected() {
    let mut g = Graph::new();
    let v1 = create_node(&mut g, MyNodeTemplate::MakeVector);
    let _s1 = create_node(&mut g, MyNodeTemplate::MakeScalar);
    let adder = create_node(&mut g, MyNodeTemplate::AddScalar);

    // v1.out is Vec2, AddScalar's input A is Scalar: no implicit widening.
    let r = g.add_connection(
        OutputRef { node: v1, port: 0 },
        InputRef { node: adder, port: 0 },
    );
    assert_eq!(
        r,
        Err(ConnectError::IncompatibleTypes {
            output: MyDataType::Vec2,
            input: MyDataType::Scalar,
        })
    );
    assert!(g.connections.is_empty());
}

#[test]
fn compatible_connection_is_made_and_replaced() {
    let mut g = Graph::new();
    let s1 = create_node(&mut g, MyNodeTemplate::MakeScalar);
    let s2 = create_node(&mut g, MyNodeTemplate::MakeScalar);
    let adder = create_node(&mut g, MyNodeTemplate::AddScalar);

    let input_a = InputRef { node: adder, port: 0 };
    assert_eq!(g.add_connection(OutputRef { node: s1, port: 0 }, input_a), Ok(()));
    assert_eq!(
        g.connections,
        vec![Connection { output: OutputRef { node: s1, port: 0 }, input: input_a }]
    );

    // Rewiring the same input keeps at most one incoming connection.
    assert_eq!(g.add_connection(OutputRef { node: s2, port: 0 }, input_a), Ok(()));
    assert_eq!(
        g.connections,
        vec![Connection { output: OutputRef { node: s2, port: 0 }, input: input_a }]
    );

    // One output may drive many inputs.
    let input_b = InputRef { node: adder, port: 1 };
    assert_eq!(g.add_connection(OutputRef { node: s2, port: 0 }, input_b), Ok(()));
    assert_eq!(g.connections.len(), 2);

    g.disconnect(input_a);
    assert_eq!(
        g.connections,
        vec![Connection { output: OutputRef { node: s2, port: 0 }, input: input_b }]
    );
}

#[test]
fn missing_ports_are_reported() {
    let mut g = Graph::new();
    let s1 = create_node(&mut g, MyNodeTemplate::MakeScalar);
    let missing = NodeId { idx: 99 };
    assert_eq!(
        g.add_connection(OutputRef { node: missing, port: 0 }, InputRef { node: s1, port: 0 }),
        Err(ConnectError::NoSuchOutput)
    );
    assert_eq!(
        g.add_connection(OutputRef { node: s1, port: 0 }, InputRef { node: s1, port: 7 }),
        Err(ConnectError::NoSuchInput)
    );
}

#[test]
fn removing_a_node_drops_its_connections_and_goes_stale() {
    let mut g = Graph::new();
    let s1 = create_node(&mut g, MyNodeTemplate::MakeScalar);
    let adder = create_node(&mut g, MyNodeTemplate::AddScalar);
    assert_eq!(
        g.add_connection(OutputRef { node: s1, port: 0 }, InputRef { node: adder, port: 0 }),
        Ok(())
    );
    assert_eq!(g.connections.len(), 1);

    g.remove_node(s1);
    assert!(!g.has_node(s1));
    assert!(g.has_node(adder));
    assert!(g.connections.is_empty());
}

#[test]
fn stale_active_node_is_cleared_on_reconcile() {
    let mut g = Graph::new();
    let n1 = create_node(&mut g, MyNodeTemplate::MakeScalar);
    let n2 = create_node(&mut g, MyNodeTemplate::MakeVector);

    let mut s = MyGraphState::new();
    s.apply_response(MyResponse::SetActiveNode(n1));
    s.reconcile(&g);
    assert_eq!(s.active_node, Some(n1));

    g.remove_node(n1);
    s.reconcile(&g);
    assert_eq!(s.active_node, None);

    // An intact reference survives reconciliation.
    s.apply_response(MyResponse::SetActiveNode(n2));
    s.reconcile(&g);
    assert_eq!(s.active_node, Some(n2));
}
