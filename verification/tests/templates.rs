use vel_node::data_type::MyDataType;
use vel_node::graph::{Graph, InputParam, InputParamKind, Node, NodeId, OutputParam};
use vel_node::template::{all_templates, create_node, MyNodeData, MyNodeTemplate};
use vel_node::value::{MyValueType, Vec2Data};

fn node<'g>(g: &'g Graph, n: NodeId) -> &'g Node {
    g.slots[n.idx].as_ref().expect("node should be present")
}

fn scalar_zero() -> MyValueType {
    MyValueType::Scalar { value: 0.0f32.to_bits() }
}

fn vector_zero() -> MyValueType {
    MyValueType::Vec2 { value: Vec2Data { x: 0.0f32.to_bits(), y: 0.0f32.to_bits() } }
}

fn check_input(p: &InputParam, name: &str, typ: MyDataType, value: MyValueType) {
    assert_eq!(p.name, name);
    assert_eq!(p.typ, typ);
    assert_eq!(p.value, value);
    assert_eq!(p.kind, InputParamKind::ConnectionOrConstant);
}

fn check_output(p: &OutputParam, name: &str, typ: MyDataType) {
    assert_eq!(p.name, name);
    assert_eq!(p.typ, typ);
}

#[test]
fn catalog_has_each_variant_once() {
    let ts = all_templates();
    assert_eq!(ts.len(), 7);
    assert_eq!(
        ts,
        vec![
            MyNodeTemplate::MakeVector,
            MyNodeTemplate::MakeScalar,
            MyNodeTemplate::AddScalar,
            MyNodeTemplate::SubtractScalar,
            MyNodeTemplate::VectorTimesScalar,
            MyNodeTemplate::AddVector,
            MyNodeTemplate::SubtractVector,
        ]
    );
    for (i, a) in ts.iter().enumerate() {
        for b in ts.iter().skip(i + 1) {
            assert_ne!(a, b);
        }
    }
}

#[test]
fn finder_labels() {
    assert_eq!(MyNodeTemplate::MakeVector.node_finder_label(), "New vector");
    assert_eq!(MyNodeTemplate::MakeScalar.node_finder_label(), "New scalar");
    assert_eq!(MyNodeTemplate::AddScalar.node_finder_label(), "Scalar add");
    assert_eq!(MyNodeTemplate::SubtractScalar.node_finder_label(), "Scalar subtract");
    assert_eq!(MyNodeTemplate::AddVector.node_finder_label(), "Vector add");
    assert_eq!(MyNodeTemplate::SubtractVector.node_finder_label(), "Vector subtract");
    assert_eq!(MyNodeTemplate::VectorTimesScalar.node_finder_label(), "Vector times scalar");
}

#[test]
fn graph_label_matches_finder_label() {
    for t in all_templates() {
        assert_eq!(t.node_graph_label(), t.node_finder_label().to_string());
    }
}

#[test]
fn user_data_records_template() {
    for t in all_templates() {
        assert_eq!(t.user_data(), MyNodeData { template: t });
    }
}

#[test]
fn make_scalar_ports() {
    let mut g = Graph::new();
    let n = create_node(&mut g, MyNodeTemplate::MakeScalar);
    let node = node(&g, n);
    assert_eq!(node.label, "New scalar");
    assert_eq!(node.user_data, MyNodeData { template: MyNodeTemplate::MakeScalar });
    assert_eq!(node.inputs.len(), 1);
    check_input(&node.inputs[0], "value", MyDataType::Scalar, scalar_zero());
    assert_eq!(node.outputs.len(), 1);
    check_output(&node.outputs[0], "out", MyDataType::Scalar);
}

#[test]
fn make_vector_ports() {
    let mut g = Graph::new();
    let n = create_node(&mut g, MyNodeTemplate::MakeVector);
    let node = node(&g, n);
    assert_eq!(node.inputs.len(), 2);
    check_input(&node.inputs[0], "x", MyDataType::Scalar, scalar_zero());
    check_input(&node.inputs[1], "y", MyDataType::Scalar, scalar_zero());
    assert_eq!(node.outputs.len(), 1);
    check_output(&node.outputs[0], "out", MyDataType::Vec2);
}

#[test]
fn scalar_arithmetic_ports() {
    for t in [MyNodeTemplate::AddScalar, MyNodeTemplate::SubtractScalar] {
        let mut g = Graph::new();
        let n = create_node(&mut g, t);
        let node = node(&g, n);
        assert_eq!(node.inputs.len(), 2);
        check_input(&node.inputs[0], "A", MyDataType::Scalar, scalar_zero());
        check_input(&node.inputs[1], "B", MyDataType::Scalar, scalar_zero());
        assert_eq!(node.outputs.len(), 1);
        check_output(&node.outputs[0], "out", MyDataType::Scalar);
    }
}

#[test]
fn vector_arithmetic_ports() {
    for t in [MyNodeTemplate::AddVector, MyNodeTemplate::SubtractVector] {
        let mut g = Graph::new();
        let n = create_node(&mut g, t);
        let node = node(&g, n);
        assert_eq!(node.inputs.len(), 2);
        check_input(&node.inputs[0], "v1", MyDataType::Vec2, vector_zero());
        check_input(&node.inputs[1], "v2", MyDataType::Vec2, vector_zero());
        assert_eq!(node.outputs.len(), 1);
        check_output(&node.outputs[0], "out", MyDataType::Vec2);
    }
}

#[test]
fn vector_times_scalar_ports() {
    let mut g = Graph::new();
    let n = create_node(&mut g, MyNodeTemplate::VectorTimesScalar);
    let node = node(&g, n);
    assert_eq!(node.inputs.len(), 2);
    check_input(&node.inputs[0], "scalar", MyDataType::Scalar, scalar_zero());
    check_input(&node.inputs[1], "vector", MyDataType::Vec2, vector_zero());
    assert_eq!(node.outputs.len(), 1);
    check_output(&node.outputs[0], "out", MyDataType::Vec2);
}

#[test]
fn instantiation_is_deterministic() {
    let mut g = Graph::new();
    for t in all_templates() {
        let a = create_node(&mut g, t);
        let b = create_node(&mut g, t);
        assert_ne!(a, b);
        let na = node(&g, a);
        let nb = node(&g, b);
        assert_eq!(na.inputs.len(), nb.inputs.len());
        for (pa, pb) in na.inputs.iter().zip(nb.inputs.iter()) {
            assert_eq!(pa.name, pb.name);
            assert_eq!(pa.typ, pb.typ);
            assert_eq!(pa.value, pb.value);
            assert_eq!(pa.kind, pb.kind);
        }
        assert_eq!(na.outputs.len(), nb.outputs.len());
        for (pa, pb) in na.outputs.iter().zip(nb.outputs.iter()) {
            assert_eq!(pa.name, pb.name);
            assert_eq!(pa.typ, pb.typ);
        }
    }
}
